//! The byte format used to persist sessions and the pack index: length-prefixed
//! UTF-8 strings and byte blocks, a tag byte per state variant, and
//! concatenation of entries for the pack index. Decoding is proved to invert
//! encoding, which is what makes a stored session come back intact.

use vstd::prelude::*;
use vstd::bytes::*;
use vstd::slice::*;
use vstd::utf8::*;
use crate::state_machine::{AbstractState, Pack, State};

verus! {

broadcast use vstd::utf8::encode_utf8_valid_utf8, vstd::utf8::encode_utf8_decode_utf8;

/// A 64-bit length or integer, little endian.
pub open spec fn enc_u64(x: u64) -> Seq<u8> {
    spec_u64_to_le_bytes(x)
}

/// A byte block: its length, then its bytes.
pub open spec fn enc_bytes(v: Seq<u8>) -> Seq<u8> {
    enc_u64(v.len() as u64) + v
}

/// A string: the length of its UTF-8 encoding, then that encoding.
pub open spec fn enc_str(s: Seq<char>) -> Seq<u8> {
    enc_bytes(encode_utf8(s))
}

/// An optional string: a presence byte, then the string if present.
pub open spec fn enc_opt_str(t: Option<Seq<char>>) -> Seq<u8> {
    match t {
        None => seq![0u8],
        Some(s) => seq![1u8] + enc_str(s),
    }
}

/// The byte that stands for a pack target.
pub open spec fn pack_byte(p: Pack) -> u8 {
    if p is New {
        0
    } else {
        1
    }
}

/// A string whose UTF-8 encoding fits under a 64-bit length prefix.
pub open spec fn str_ok(s: Seq<char>) -> bool {
    encode_utf8(s).len() <= u64::MAX
}

/// States whose every field fits under a 64-bit length prefix. Every value
/// built from real strings and vectors satisfies this.
pub open spec fn encodable(s: AbstractState) -> bool {
    match s {
        AbstractState::Start { .. } => true,
        AbstractState::Name { name, .. } => str_ok(name),
        AbstractState::Sticker { name, file, .. } => str_ok(name) && file.len() <= u64::MAX,
        AbstractState::Emojis { name, emojis, file, .. } => str_ok(name) && str_ok(emojis)
            && file.len() <= u64::MAX,
        AbstractState::Title { name, title, emojis, file, .. } => str_ok(name) && str_ok(title)
            && str_ok(emojis) && file.len() <= u64::MAX,
        AbstractState::End { title, emojis, file, name, .. } => str_ok(name) && (match title {
            Some(t) => str_ok(t),
            None => true,
        }) && str_ok(emojis) && file.len() <= u64::MAX,
    }
}

/// The encoding of a session state: a tag byte, the pack byte, then the
/// variant's fields in order.
pub open spec fn spec_encode_state(s: AbstractState) -> Seq<u8> {
    match s {
        AbstractState::Start { pack } => seq![0u8, pack_byte(pack)],
        AbstractState::Name { pack, name } => seq![1u8, pack_byte(pack)] + enc_str(name),
        AbstractState::Sticker { pack, name, file } => seq![2u8, pack_byte(pack)] + enc_str(name)
            + enc_bytes(file),
        AbstractState::Emojis { pack, name, emojis, file } => seq![3u8, pack_byte(pack)]
            + enc_str(name) + enc_str(emojis) + enc_bytes(file),
        AbstractState::Title { pack, name, title, emojis, file } => seq![4u8, pack_byte(pack)]
            + enc_str(name) + enc_str(title) + enc_str(emojis) + enc_bytes(file),
        AbstractState::End { pack, title, emojis, file, name, user_id } => seq![
            5u8,
            pack_byte(pack),
        ] + enc_str(name) + enc_opt_str(title) + enc_str(emojis) + enc_bytes(file) + enc_u64(
            user_id as u64,
        ),
    }
}

// ---------------------------------------------------------------------------
// The decoder, as a cursor over the byte sequence. Each `take_*` either
// returns the decoded value and the position after it, or fails.
// ---------------------------------------------------------------------------

pub open spec fn take_byte(b: Seq<u8>, pos: int) -> Option<(u8, int)> {
    if 0 <= pos && pos + 1 <= b.len() {
        Some((b[pos], pos + 1))
    } else {
        None
    }
}

pub open spec fn take_u64(b: Seq<u8>, pos: int) -> Option<(u64, int)> {
    if 0 <= pos && pos + 8 <= b.len() {
        Some((spec_u64_from_le_bytes(b.subrange(pos, pos + 8)), pos + 8))
    } else {
        None
    }
}

pub open spec fn take_bytes(b: Seq<u8>, pos: int) -> Option<(Seq<u8>, int)> {
    match take_u64(b, pos) {
        None => None,
        Some((n, p)) => if p + (n as int) <= b.len() {
            Some((b.subrange(p, p + (n as int)), p + (n as int)))
        } else {
            None
        },
    }
}

pub open spec fn take_str(b: Seq<u8>, pos: int) -> Option<(Seq<char>, int)> {
    match take_bytes(b, pos) {
        None => None,
        Some((v, p)) => if valid_utf8(v) {
            Some((decode_utf8(v), p))
        } else {
            None
        },
    }
}

pub open spec fn take_pack(b: Seq<u8>, pos: int) -> Option<(Pack, int)> {
    match take_byte(b, pos) {
        None => None,
        Some((c, p)) => if c == 0 {
            Some((Pack::New, p))
        } else if c == 1 {
            Some((Pack::Existing, p))
        } else {
            None
        },
    }
}

pub open spec fn take_opt_str(b: Seq<u8>, pos: int) -> Option<(Option<Seq<char>>, int)> {
    match take_byte(b, pos) {
        None => None,
        Some((c, p)) => if c == 0 {
            Some((None, p))
        } else if c == 1 {
            match take_str(b, p) {
                None => None,
                Some((s, q)) => Some((Some(s), q)),
            }
        } else {
            None
        },
    }
}

/// The decoding of a session state: exactly the canonical encodings decode,
/// and trailing bytes are rejected.
pub open spec fn spec_decode_state(b: Seq<u8>) -> Option<AbstractState> {
    match take_byte(b, 0) {
        None => None,
        Some((tag, p0)) => match take_pack(b, p0) {
            None => None,
            Some((pack, p1)) => if tag == 0 {
                if p1 == b.len() {
                    Some(AbstractState::Start { pack })
                } else {
                    None
                }
            } else if tag == 1 {
                match take_str(b, p1) {
                    None => None,
                    Some((name, p2)) => if p2 == b.len() {
                        Some(AbstractState::Name { pack, name })
                    } else {
                        None
                    },
                }
            } else if tag == 2 {
                match take_str(b, p1) {
                    None => None,
                    Some((name, p2)) => match take_bytes(b, p2) {
                        None => None,
                        Some((file, p3)) => if p3 == b.len() {
                            Some(AbstractState::Sticker { pack, name, file })
                        } else {
                            None
                        },
                    },
                }
            } else if tag == 3 {
                match take_str(b, p1) {
                    None => None,
                    Some((name, p2)) => match take_str(b, p2) {
                        None => None,
                        Some((emojis, p3)) => match take_bytes(b, p3) {
                            None => None,
                            Some((file, p4)) => if p4 == b.len() {
                                Some(AbstractState::Emojis { pack, name, emojis, file })
                            } else {
                                None
                            },
                        },
                    },
                }
            } else if tag == 4 {
                match take_str(b, p1) {
                    None => None,
                    Some((name, p2)) => match take_str(b, p2) {
                        None => None,
                        Some((title, p3)) => match take_str(b, p3) {
                            None => None,
                            Some((emojis, p4)) => match take_bytes(b, p4) {
                                None => None,
                                Some((file, p5)) => if p5 == b.len() {
                                    Some(
                                        AbstractState::Title { pack, name, title, emojis, file },
                                    )
                                } else {
                                    None
                                },
                            },
                        },
                    },
                }
            } else if tag == 5 {
                match take_str(b, p1) {
                    None => None,
                    Some((name, p2)) => match take_opt_str(b, p2) {
                        None => None,
                        Some((title, p3)) => match take_str(b, p3) {
                            None => None,
                            Some((emojis, p4)) => match take_bytes(b, p4) {
                                None => None,
                                Some((file, p5)) => match take_u64(b, p5) {
                                    None => None,
                                    Some((uid, p6)) => if p6 == b.len() {
                                        Some(
                                            AbstractState::End {
                                                pack,
                                                title,
                                                emojis,
                                                file,
                                                name,
                                                user_id: uid as i64,
                                            },
                                        )
                                    } else {
                                        None
                                    },
                                },
                            },
                        },
                    },
                }
            } else {
                None
            },
        },
    }
}

// ---------------------------------------------------------------------------
// The decoder inverts the encoder.
// ---------------------------------------------------------------------------

pub proof fn lemma_enc_u64_len(x: u64)
    ensures
        enc_u64(x).len() == 8,
{
    lemma_auto_spec_u64_to_from_le_bytes();
}

pub proof fn lemma_enc_str_len(s: Seq<char>)
    ensures
        enc_str(s).len() == 8 + encode_utf8(s).len(),
{
    lemma_enc_u64_len(encode_utf8(s).len() as u64);
}

pub proof fn lemma_enc_bytes_len(v: Seq<u8>)
    ensures
        enc_bytes(v).len() == 8 + v.len(),
{
    lemma_enc_u64_len(v.len() as u64);
}

proof fn lemma_take_u64_at(b: Seq<u8>, pos: int, x: u64)
    requires
        0 <= pos,
        pos + 8 <= b.len(),
        b.subrange(pos, pos + 8) == enc_u64(x),
    ensures
        take_u64(b, pos) == Some((x, pos + 8)),
{
    lemma_auto_spec_u64_to_from_le_bytes();
}

proof fn lemma_take_bytes_at(b: Seq<u8>, pos: int, v: Seq<u8>)
    requires
        0 <= pos,
        v.len() <= u64::MAX,
        pos + 8 + v.len() <= b.len(),
        b.subrange(pos, pos + 8 + v.len()) == enc_bytes(v),
    ensures
        take_bytes(b, pos) == Some((v, pos + 8 + v.len())),
{
    lemma_enc_u64_len(v.len() as u64);
    assert(b.subrange(pos, pos + 8) =~= enc_bytes(v).subrange(0, 8));
    assert(enc_bytes(v).subrange(0, 8) =~= enc_u64(v.len() as u64));
    lemma_take_u64_at(b, pos, v.len() as u64);
    assert forall|i: int| 0 <= i < v.len() implies b.subrange(pos + 8, pos + 8 + v.len())[i]
        == v[i] by {
        assert(b.subrange(pos, pos + 8 + v.len())[8 + i] == v[i]);
    }
    assert(b.subrange(pos + 8, pos + 8 + v.len()) =~= v);
}

proof fn lemma_take_str_at(b: Seq<u8>, pos: int, s: Seq<char>)
    requires
        0 <= pos,
        str_ok(s),
        pos + 8 + encode_utf8(s).len() <= b.len(),
        b.subrange(pos, pos + 8 + encode_utf8(s).len()) == enc_str(s),
    ensures
        take_str(b, pos) == Some((s, pos + 8 + encode_utf8(s).len())),
{
    lemma_take_bytes_at(b, pos, encode_utf8(s));
}

#[verifier::spinoff_prover]
proof fn lemma_rt_start(pack: Pack)
    ensures
        spec_decode_state(spec_encode_state(AbstractState::Start { pack })) == Some(
            AbstractState::Start { pack },
        ),
{
    let s = AbstractState::Start { pack };
    let b: Seq<u8> = spec_encode_state(s);
    assert(take_byte(b, 0) == Some((0u8, 1int)));
    assert(take_byte(b, 1) == Some((pack_byte(pack), 2int)));
    assert(take_pack(b, 1) == Some((pack, 2int)));
}

#[verifier::spinoff_prover]
proof fn lemma_rt_name(pack: Pack, name: Seq<char>)
    requires
        str_ok(name),
    ensures
        spec_decode_state(spec_encode_state(AbstractState::Name { pack, name })) == Some(
            AbstractState::Name { pack, name },
        ),
{
    let s = AbstractState::Name { pack, name };
    let b: Seq<u8> = spec_encode_state(s);
    lemma_enc_str_len(name);
    let p2: int = 2 + 8 + encode_utf8(name).len() as int;
    assert(take_byte(b, 0) == Some((1u8, 1int)));
    assert(take_byte(b, 1) == Some((pack_byte(pack), 2int)));
    assert(take_pack(b, 1) == Some((pack, 2int)));
    assert(b.subrange(2, p2) =~= enc_str(name));
    lemma_take_str_at(b, 2, name);
    assert(p2 == b.len());
}

#[verifier::spinoff_prover]
proof fn lemma_rt_sticker(pack: Pack, name: Seq<char>, file: Seq<u8>)
    requires
        str_ok(name),
        file.len() <= u64::MAX,
    ensures
        spec_decode_state(spec_encode_state(AbstractState::Sticker { pack, name, file })) == Some(
            AbstractState::Sticker { pack, name, file },
        ),
{
    let s = AbstractState::Sticker { pack, name, file };
    lemma_enc_bytes_len(file);
    let b: Seq<u8> = spec_encode_state(s);
    lemma_enc_str_len(name);
    let p2: int = 2 + 8 + encode_utf8(name).len() as int;
    let p3: int = p2 + 8 + file.len() as int;
    assert(take_byte(b, 0) == Some((2u8, 1int)));
    assert(take_byte(b, 1) == Some((pack_byte(pack), 2int)));
    assert(take_pack(b, 1) == Some((pack, 2int)));
    assert(b.subrange(2, p2) =~= enc_str(name));
    lemma_take_str_at(b, 2, name);
    assert(b.subrange(p2, p3) =~= enc_bytes(file));
    lemma_take_bytes_at(b, p2, file);
    assert(p3 == b.len());
}

#[verifier::spinoff_prover]
proof fn lemma_rt_emojis(pack: Pack, name: Seq<char>, emojis: Seq<char>, file: Seq<u8>)
    requires
        str_ok(name),
        str_ok(emojis),
        file.len() <= u64::MAX,
    ensures
        spec_decode_state(spec_encode_state(AbstractState::Emojis { pack, name, emojis, file }))
            == Some(AbstractState::Emojis { pack, name, emojis, file }),
{
    let s = AbstractState::Emojis { pack, name, emojis, file };
    lemma_enc_bytes_len(file);
    let b: Seq<u8> = spec_encode_state(s);
    lemma_enc_str_len(name);
    lemma_enc_str_len(emojis);
    let p2: int = 2 + 8 + encode_utf8(name).len() as int;
    let p3: int = p2 + 8 + encode_utf8(emojis).len() as int;
    let p4: int = p3 + 8 + file.len() as int;
    assert(take_byte(b, 0) == Some((3u8, 1int)));
    assert(take_byte(b, 1) == Some((pack_byte(pack), 2int)));
    assert(take_pack(b, 1) == Some((pack, 2int)));
    assert(b.subrange(2, p2) =~= enc_str(name));
    lemma_take_str_at(b, 2, name);
    assert(b.subrange(p2, p3) =~= enc_str(emojis));
    lemma_take_str_at(b, p2, emojis);
    assert(b.subrange(p3, p4) =~= enc_bytes(file));
    lemma_take_bytes_at(b, p3, file);
    assert(p4 == b.len());
}

#[verifier::spinoff_prover]
#[verifier::rlimit(50)]
proof fn lemma_rt_title(
    pack: Pack,
    name: Seq<char>,
    title: Seq<char>,
    emojis: Seq<char>,
    file: Seq<u8>,
)
    requires
        str_ok(name),
        str_ok(title),
        str_ok(emojis),
        file.len() <= u64::MAX,
    ensures
        spec_decode_state(
            spec_encode_state(AbstractState::Title { pack, name, title, emojis, file }),
        ) == Some(AbstractState::Title { pack, name, title, emojis, file }),
{
    let s = AbstractState::Title { pack, name, title, emojis, file };
    lemma_enc_bytes_len(file);
    let b: Seq<u8> = spec_encode_state(s);
    lemma_enc_str_len(name);
    lemma_enc_str_len(title);
    lemma_enc_str_len(emojis);
    let p2: int = 2 + 8 + encode_utf8(name).len() as int;
    let p3: int = p2 + 8 + encode_utf8(title).len() as int;
    let p4: int = p3 + 8 + encode_utf8(emojis).len() as int;
    let p5: int = p4 + 8 + file.len() as int;
    assert(take_byte(b, 0) == Some((4u8, 1int)));
    assert(take_byte(b, 1) == Some((pack_byte(pack), 2int)));
    assert(take_pack(b, 1) == Some((pack, 2int)));
    assert(b.subrange(2, p2) =~= enc_str(name));
    lemma_take_str_at(b, 2, name);
    assert(b.subrange(p2, p3) =~= enc_str(title));
    lemma_take_str_at(b, p2, title);
    assert(b.subrange(p3, p4) =~= enc_str(emojis));
    lemma_take_str_at(b, p3, emojis);
    assert(b.subrange(p4, p5) =~= enc_bytes(file));
    lemma_take_bytes_at(b, p4, file);
    assert(p5 == b.len());
}

#[verifier::spinoff_prover]
#[verifier::rlimit(50)]
proof fn lemma_rt_end(
    pack: Pack,
    title: Option<Seq<char>>,
    emojis: Seq<char>,
    file: Seq<u8>,
    name: Seq<char>,
    user_id: i64,
)
    requires
        str_ok(name),
        match title {
            Some(t) => str_ok(t),
            None => true,
        },
        str_ok(emojis),
        file.len() <= u64::MAX,
    ensures
        spec_decode_state(
            spec_encode_state(AbstractState::End { pack, title, emojis, file, name, user_id }),
        ) == Some(AbstractState::End { pack, title, emojis, file, name, user_id }),
{
    let s = AbstractState::End { pack, title, emojis, file, name, user_id };
    lemma_enc_bytes_len(file);
    let b: Seq<u8> = spec_encode_state(s);
    lemma_enc_str_len(name);
    lemma_enc_str_len(emojis);
    let p2: int = 2 + 8 + encode_utf8(name).len() as int;
    let tlen: int = match title {
        None => 1,
        Some(t) => 1 + 8 + encode_utf8(t).len() as int,
    };
    let p3: int = p2 + tlen;
    let p4: int = p3 + 8 + encode_utf8(emojis).len() as int;
    let p5: int = p4 + 8 + file.len() as int;
    let p6: int = p5 + 8;
    lemma_enc_u64_len(user_id as u64);
    assert(take_byte(b, 0) == Some((5u8, 1int)));
    assert(take_byte(b, 1) == Some((pack_byte(pack), 2int)));
    assert(take_pack(b, 1) == Some((pack, 2int)));
    assert(b.subrange(2, p2) =~= enc_str(name));
    lemma_take_str_at(b, 2, name);
    match title {
        None => {
            assert(b[p2] == 0u8);
            assert(take_opt_str(b, p2) == Some((None::<Seq<char>>, p3)));
        },
        Some(t) => {
            lemma_enc_str_len(t);
            assert(b[p2] == 1u8);
            assert(b.subrange(p2 + 1, p3) =~= enc_str(t));
            lemma_take_str_at(b, p2 + 1, t);
            assert(take_opt_str(b, p2) == Some((Some(t), p3)));
        },
    }
    assert(b.subrange(p3, p4) =~= enc_str(emojis));
    lemma_take_str_at(b, p3, emojis);
    assert(b.subrange(p4, p5) =~= enc_bytes(file));
    lemma_take_bytes_at(b, p4, file);
    assert(b.subrange(p5, p6) =~= enc_u64(user_id as u64));
    lemma_take_u64_at(b, p5, user_id as u64);
    assert(p6 == b.len());
    assert((user_id as u64) as i64 == user_id) by (bit_vector);
}

/// Round trip: decoding an encoded state yields that state. This is what makes
/// a persisted session come back equal to the one stored.
pub proof fn lemma_state_round_trip(s: AbstractState)
    requires
        encodable(s),
    ensures
        spec_decode_state(spec_encode_state(s)) == Some(s),
{
    match s {
        AbstractState::Start { pack } => lemma_rt_start(pack),
        AbstractState::Name { pack, name } => lemma_rt_name(pack, name),
        AbstractState::Sticker { pack, name, file } => lemma_rt_sticker(pack, name, file),
        AbstractState::Emojis { pack, name, emojis, file } => lemma_rt_emojis(
            pack,
            name,
            emojis,
            file,
        ),
        AbstractState::Title { pack, name, title, emojis, file } => lemma_rt_title(
            pack,
            name,
            title,
            emojis,
            file,
        ),
        AbstractState::End { pack, title, emojis, file, name, user_id } => lemma_rt_end(
            pack,
            title,
            emojis,
            file,
            name,
            user_id,
        ),
    }
}

// ---------------------------------------------------------------------------
// Executable encoder.
// ---------------------------------------------------------------------------

fn pack_code(p: Pack) -> (r: u8)
    ensures
        r == pack_byte(p),
{
    match p {
        Pack::New => 0,
        Pack::Existing => 1,
    }
}

fn push_u64(out: &mut Vec<u8>, x: u64)
    ensures
        final(out)@ == old(out)@ + enc_u64(x),
{
    let mut b = u64_to_le_bytes(x);
    out.append(&mut b);
}

fn push_block(out: &mut Vec<u8>, v: &[u8])
    ensures
        final(out)@ == old(out)@ + enc_bytes(v@),
        v@.len() <= u64::MAX,
{
    let n: usize = v.len();
    push_u64(out, n as u64);
    let mut tail = slice_to_vec(v);
    out.append(&mut tail);
    proof {
        assert(final(out)@ =~= old(out)@ + enc_bytes(v@));
    }
}

fn push_str_block(out: &mut Vec<u8>, s: &str)
    ensures
        final(out)@ == old(out)@ + enc_str(s@),
        str_ok(s@),
{
    let bytes: &[u8] = s.as_bytes();
    push_block(out, bytes);
}

/// Encode a session state for storage.
pub fn encode_state(s: &State) -> (r: Vec<u8>)
    ensures
        r@ == spec_encode_state(s@),
        encodable(s@),
{
    let mut out: Vec<u8> = Vec::new();
    match s {
        State::Start(pack) => {
            out.push(0);
            out.push(pack_code(*pack));
            proof {
                assert(out@ =~= spec_encode_state(s@));
            }
        },
        State::Name { pack, name } => {
            out.push(1);
            out.push(pack_code(*pack));
            push_str_block(&mut out, name.as_str());
            proof {
                assert(out@ =~= spec_encode_state(s@));
            }
        },
        State::Sticker { pack, name, file } => {
            out.push(2);
            out.push(pack_code(*pack));
            push_str_block(&mut out, name.as_str());
            push_block(&mut out, file.as_slice());
            proof {
                assert(out@ =~= spec_encode_state(s@));
            }
        },
        State::Emojis { pack, name, emojis, file } => {
            out.push(3);
            out.push(pack_code(*pack));
            push_str_block(&mut out, name.as_str());
            push_str_block(&mut out, emojis.as_str());
            push_block(&mut out, file.as_slice());
            proof {
                assert(out@ =~= spec_encode_state(s@));
            }
        },
        State::Title { pack, name, title, emojis, file } => {
            out.push(4);
            out.push(pack_code(*pack));
            push_str_block(&mut out, name.as_str());
            push_str_block(&mut out, title.as_str());
            push_str_block(&mut out, emojis.as_str());
            push_block(&mut out, file.as_slice());
            proof {
                assert(out@ =~= spec_encode_state(s@));
            }
        },
        State::End { pack, title, emojis, file, name, user_id } => {
            out.push(5);
            out.push(pack_code(*pack));
            push_str_block(&mut out, name.as_str());
            match title {
                Some(t) => {
                    out.push(1);
                    push_str_block(&mut out, t.as_str());
                },
                None => {
                    out.push(0);
                },
            }
            push_str_block(&mut out, emojis.as_str());
            push_block(&mut out, file.as_slice());
            push_u64(&mut out, *user_id as u64);
            proof {
                assert(out@ =~= spec_encode_state(s@));
            }
        },
    }
    out
}

// ---------------------------------------------------------------------------
// Executable decoder.
// ---------------------------------------------------------------------------

/// Relies on String::from_utf8: it accepts exactly the valid UTF-8 byte
/// sequences, and decodes them to the characters that the UTF-8 model of
/// vstd describes.
#[verifier::external_body]
fn bytes_to_string(v: Vec<u8>) -> (r: Option<String>)
    ensures
        match r {
            Some(s) => valid_utf8(v@) && s@ == decode_utf8(v@),
            None => !valid_utf8(v@),
        },
{
    match String::from_utf8(v) {
        Ok(s) => Some(s),
        Err(_) => None,
    }
}

fn read_byte(b: &[u8], pos: usize) -> (r: Option<(u8, usize)>)
    ensures
        match r {
            Some((c, p)) => take_byte(b@, pos as int) == Some((c, p as int)) && pos < p <= b@.len(),
            None => take_byte(b@, pos as int) is None,
        },
{
    if pos < b.len() {
        let c = *slice_index_get(b, pos);
        Some((c, pos + 1))
    } else {
        None
    }
}

fn read_u64(b: &[u8], pos: usize) -> (r: Option<(u64, usize)>)
    ensures
        match r {
            Some((x, p)) => take_u64(b@, pos as int) == Some((x, p as int)) && pos < p <= b@.len(),
            None => take_u64(b@, pos as int) is None,
        },
{
    if b.len() >= 8 && pos <= b.len() - 8 {
        let sub = slice_subrange(b, pos, pos + 8);
        let x = u64_from_le_bytes(sub);
        Some((x, pos + 8))
    } else {
        None
    }
}

fn read_block(b: &[u8], pos: usize) -> (r: Option<(Vec<u8>, usize)>)
    ensures
        match r {
            Some((v, p)) => take_bytes(b@, pos as int) == Some((v@, p as int)) && pos < p
                <= b@.len(),
            None => take_bytes(b@, pos as int) is None,
        },
{
    match read_u64(b, pos) {
        None => None,
        Some((n, p)) => {
            let remaining: usize = b.len() - p;
            if n <= remaining as u64 {
                let l = n as usize;
                let v = slice_to_vec(slice_subrange(b, p, p + l));
                Some((v, p + l))
            } else {
                None
            }
        },
    }
}

fn read_string(b: &[u8], pos: usize) -> (r: Option<(String, usize)>)
    ensures
        match r {
            Some((s, p)) => take_str(b@, pos as int) == Some((s@, p as int)) && pos < p <= b@.len(),
            None => take_str(b@, pos as int) is None,
        },
{
    match read_block(b, pos) {
        None => None,
        Some((v, p)) => match bytes_to_string(v) {
            None => None,
            Some(s) => Some((s, p)),
        },
    }
}

fn read_pack(b: &[u8], pos: usize) -> (r: Option<(Pack, usize)>)
    ensures
        match r {
            Some((k, p)) => take_pack(b@, pos as int) == Some((k, p as int)) && pos < p <= b@.len(),
            None => take_pack(b@, pos as int) is None,
        },
{
    match read_byte(b, pos) {
        None => None,
        Some((c, p)) => if c == 0 {
            Some((Pack::New, p))
        } else if c == 1 {
            Some((Pack::Existing, p))
        } else {
            None
        },
    }
}

fn read_opt_string(b: &[u8], pos: usize) -> (r: Option<(Option<String>, usize)>)
    ensures
        match r {
            Some((t, p)) => ({
                &&& take_opt_str(b@, pos as int) == Some(
                    (
                        match t {
                            Some(s) => Some(s@),
                            None => None,
                        },
                        p as int,
                    ),
                )
                &&& pos < p <= b@.len()
            }),
            None => take_opt_str(b@, pos as int) is None,
        },
{
    match read_byte(b, pos) {
        None => None,
        Some((c, p)) => if c == 0 {
            Some((None, p))
        } else if c == 1 {
            match read_string(b, p) {
                None => None,
                Some((s, q)) => Some((Some(s), q)),
            }
        } else {
            None
        },
    }
}

/// Decode a stored session state. Returns the state whose encoding the bytes
/// are, or nothing when they are no state's encoding.
pub fn decode_state(b: &[u8]) -> (r: Option<State>)
    ensures
        match r {
            Some(st) => spec_decode_state(b@) == Some(st@),
            None => spec_decode_state(b@) is None,
        },
{
    let tagged = read_byte(b, 0);
    match tagged {
        None => None,
        Some((tag, p0)) => match read_pack(b, p0) {
            None => None,
            Some((pack, p1)) => {
                if tag == 0 {
                    if p1 == b.len() {
                        Some(State::Start(pack))
                    } else {
                        None
                    }
                } else if tag == 1 {
                    match read_string(b, p1) {
                        None => None,
                        Some((name, p2)) => if p2 == b.len() {
                            Some(State::Name { pack, name })
                        } else {
                            None
                        },
                    }
                } else if tag == 2 {
                    match read_string(b, p1) {
                        None => None,
                        Some((name, p2)) => match read_block(b, p2) {
                            None => None,
                            Some((file, p3)) => if p3 == b.len() {
                                Some(State::Sticker { pack, name, file })
                            } else {
                                None
                            },
                        },
                    }
                } else if tag == 3 {
                    match read_string(b, p1) {
                        None => None,
                        Some((name, p2)) => match read_string(b, p2) {
                            None => None,
                            Some((emojis, p3)) => match read_block(b, p3) {
                                None => None,
                                Some((file, p4)) => if p4 == b.len() {
                                    Some(State::Emojis { pack, name, emojis, file })
                                } else {
                                    None
                                },
                            },
                        },
                    }
                } else if tag == 4 {
                    match read_string(b, p1) {
                        None => None,
                        Some((name, p2)) => match read_string(b, p2) {
                            None => None,
                            Some((title, p3)) => match read_string(b, p3) {
                                None => None,
                                Some((emojis, p4)) => match read_block(b, p4) {
                                    None => None,
                                    Some((file, p5)) => if p5 == b.len() {
                                        Some(State::Title { pack, name, title, emojis, file })
                                    } else {
                                        None
                                    },
                                },
                            },
                        },
                    }
                } else if tag == 5 {
                    match read_string(b, p1) {
                        None => None,
                        Some((name, p2)) => match read_opt_string(b, p2) {
                            None => None,
                            Some((title, p3)) => match read_string(b, p3) {
                                None => None,
                                Some((emojis, p4)) => match read_block(b, p4) {
                                    None => None,
                                    Some((file, p5)) => match read_u64(b, p5) {
                                        None => None,
                                        Some((uid, p6)) => if p6 == b.len() {
                                            Some(
                                                State::End {
                                                    pack,
                                                    title,
                                                    emojis,
                                                    file,
                                                    name,
                                                    user_id: uid as i64,
                                                },
                                            )
                                        } else {
                                            None
                                        },
                                    },
                                },
                            },
                        },
                    }
                } else {
                    None
                }
            },
        },
    }
}

// ---------------------------------------------------------------------------
// The pack index: length-prefixed names, concatenated. The store's merge
// operator appends one encoded name, so appends never lose each other.
// ---------------------------------------------------------------------------

/// Decode pack-index entries from `pos` to the end of the bytes.
pub open spec fn dec_entries(b: Seq<u8>, pos: int) -> Option<Seq<Seq<char>>>
    decreases b.len() - pos,
{
    if pos == b.len() {
        Some(Seq::empty())
    } else {
        match take_str(b, pos) {
            None => None,
            Some((s, p)) => if pos < p <= b.len() {
                match dec_entries(b, p) {
                    None => None,
                    Some(rest) => Some(seq![s] + rest),
                }
            } else {
                None
            },
        }
    }
}

/// The decoding of a whole pack-index value.
pub open spec fn spec_decode_pack(b: Seq<u8>) -> Option<Seq<Seq<char>>> {
    dec_entries(b, 0)
}

/// What the store's merge operator computes: the old value (or nothing),
/// followed by the appended bytes.
pub open spec fn spec_merge(old: Option<Seq<u8>>, add: Seq<u8>) -> Seq<u8> {
    match old {
        None => add,
        Some(b) => b + add,
    }
}

/// Encode one pack name as a pack-index entry.
pub fn encode_pack_entry(name: &str) -> (r: Vec<u8>)
    ensures
        r@ == enc_str(name@),
        str_ok(name@),
{
    let mut out: Vec<u8> = Vec::new();
    push_str_block(&mut out, name);
    proof {
        assert(out@ =~= enc_str(name@));
    }
    out
}

/// The pack-index merge operator: concatenate the appended entry after the
/// old value. Installed into the store, it makes appends atomic read-modify-
/// writes that never lose one another.
pub fn merge_pack_values(old: Option<&[u8]>, add: &[u8]) -> (r: Vec<u8>)
    ensures
        match old {
            Some(o) => r@ == spec_merge(Some(o@), add@),
            None => r@ == spec_merge(None, add@),
        },
{
    let mut out: Vec<u8> = match old {
        Some(o) => slice_to_vec(o),
        None => Vec::new(),
    };
    let mut tail = slice_to_vec(add);
    out.append(&mut tail);
    out
}

/// Decode a pack-index value into its names, in append order.
pub fn decode_pack_index(b: &[u8]) -> (r: Option<Vec<String>>)
    ensures
        match r {
            Some(v) => spec_decode_pack(b@) == Some(v.deep_view()),
            None => spec_decode_pack(b@) is None,
        },
{
    let mut out: Vec<String> = Vec::new();
    let mut pos: usize = 0;
    loop
        invariant
            pos <= b@.len(),
            match dec_entries(b@, pos as int) {
                None => dec_entries(b@, 0) is None,
                Some(rest) => dec_entries(b@, 0) == Some(out.deep_view() + rest),
            },
        decreases b@.len() - pos,
    {
        if pos == b.len() {
            proof {
                assert(out.deep_view() + Seq::<Seq<char>>::empty() =~= out.deep_view());
            }
            return Some(out);
        }
        match read_string(b, pos) {
            None => {
                return None;
            },
            Some((s, p)) => {
                let ghost prev = out.deep_view();
                out.push(s);
                proof {
                    assert(out.deep_view() =~= prev.push(s@));
                    match dec_entries(b@, p as int) {
                        None => {},
                        Some(rest2) => {
                            assert(prev + (seq![s@] + rest2) =~= prev.push(s@) + rest2);
                        },
                    }
                }
                pos = p;
            },
        }
    }
}

/// A cursor step only looks at the bytes it consumes, so appending bytes after
/// the end does not change it.
proof fn lemma_take_str_extend(b: Seq<u8>, ext: Seq<u8>, pos: int)
    requires
        take_str(b, pos) is Some,
    ensures
        take_str(b + ext, pos) == take_str(b, pos),
{
    let b2 = b + ext;
    assert(b2.subrange(pos, pos + 8) =~= b.subrange(pos, pos + 8));
    let n = (take_u64(b, pos)->Some_0).0;
    let p = (take_u64(b, pos)->Some_0).1;
    assert(b2.subrange(p, p + n as int) =~= b.subrange(p, p + n as int));
}

/// Appending one encoded name to a value that decodes extends the decoding by
/// exactly that name.
proof fn lemma_dec_entries_extend(b: Seq<u8>, n: Seq<char>, pos: int)
    requires
        0 <= pos <= b.len(),
        dec_entries(b, pos) is Some,
        str_ok(n),
    ensures
        dec_entries(b + enc_str(n), pos) == Some(dec_entries(b, pos)->Some_0.push(n)),
    decreases b.len() - pos,
{
    let b2 = b + enc_str(n);
    lemma_enc_str_len(n);
    if pos == b.len() {
        assert(b2.subrange(pos, pos + 8 + encode_utf8(n).len()) =~= enc_str(n));
        lemma_take_str_at(b2, pos, n);
        let p: int = pos + 8 + encode_utf8(n).len() as int;
        assert(p == b2.len());
        assert(dec_entries(b2, p) == Some(Seq::<Seq<char>>::empty()));
        assert(seq![n] + Seq::<Seq<char>>::empty() =~= dec_entries(b, pos)->Some_0.push(n));
    } else {
        let s = (take_str(b, pos)->Some_0).0;
        let p = (take_str(b, pos)->Some_0).1;
        lemma_take_str_extend(b, enc_str(n), pos);
        lemma_dec_entries_extend(b, n, p);
        let rest = dec_entries(b, p)->Some_0;
        assert(seq![s] + rest.push(n) =~= (seq![s] + rest).push(n));
    }
}

/// One append through the merge operator: the decoded index gains exactly the
/// appended name, at the end, whatever was there before.
pub proof fn lemma_pack_append(old: Option<Seq<u8>>, n: Seq<char>)
    requires
        match old {
            Some(b) => spec_decode_pack(b) is Some,
            None => true,
        },
        str_ok(n),
    ensures
        spec_decode_pack(spec_merge(old, enc_str(n))) == Some(
            match old {
                Some(b) => spec_decode_pack(b)->Some_0.push(n),
                None => seq![n],
            },
        ),
{
    match old {
        Some(b) => {
            lemma_dec_entries_extend(b, n, 0);
        },
        None => {
            lemma_dec_entries_extend(Seq::empty(), n, 0);
            assert(Seq::<u8>::empty() + enc_str(n) =~= enc_str(n));
            assert(Seq::<Seq<char>>::empty().push(n) =~= seq![n]);
        },
    }
}

/// The concatenation of the encodings of a sequence of names.
pub open spec fn enc_all(names: Seq<Seq<char>>) -> Seq<u8>
    decreases names.len(),
{
    if names.len() == 0 {
        Seq::empty()
    } else {
        enc_all(names.drop_last()) + enc_str(names.last())
    }
}

pub open spec fn all_str_ok(names: Seq<Seq<char>>) -> bool {
    forall|i: int| 0 <= i < names.len() ==> str_ok(#[trigger] names[i])
}

/// No append is ever lost: merging any number of names, one at a time and in
/// any order, onto a value that decodes yields a value whose decoding is the
/// old names followed by the merged ones — in particular its length grows by
/// exactly the number of appends.
pub proof fn lemma_pack_append_all(b: Seq<u8>, names: Seq<Seq<char>>)
    requires
        spec_decode_pack(b) is Some,
        all_str_ok(names),
    ensures
        spec_decode_pack(b + enc_all(names)) == Some(spec_decode_pack(b)->Some_0 + names),
        spec_decode_pack(b + enc_all(names))->Some_0.len() == spec_decode_pack(b)->Some_0.len()
            + names.len(),
    decreases names.len(),
{
    if names.len() == 0 {
        assert(b + enc_all(names) =~= b);
        assert(spec_decode_pack(b)->Some_0 + names =~= spec_decode_pack(b)->Some_0);
    } else {
        let init = names.drop_last();
        assert(all_str_ok(init)) by {
            assert(forall|i: int| 0 <= i < init.len() ==> init[i] == names[i]);
        }
        lemma_pack_append_all(b, init);
        assert(str_ok(names.last()));
        lemma_dec_entries_extend(b + enc_all(init), names.last(), 0);
        assert(b + enc_all(names) =~= (b + enc_all(init)) + enc_str(names.last()));
        assert((spec_decode_pack(b)->Some_0 + init).push(names.last()) =~= spec_decode_pack(b)
            ->Some_0 + names);
    }
}

/// The pack value after appending each name in turn through the merge
/// operator, starting from the given stored value (or from an absent one).
pub open spec fn merge_all(old: Option<Seq<u8>>, names: Seq<Seq<char>>) -> Seq<u8>
    decreases names.len(),
{
    if names.len() == 0 {
        spec_merge(old, Seq::empty())
    } else {
        spec_merge(Some(merge_all(old, names.drop_last())), enc_str(names.last()))
    }
}

proof fn lemma_merge_all_is_concat(old: Option<Seq<u8>>, names: Seq<Seq<char>>)
    ensures
        merge_all(old, names) == (match old {
            Some(b) => b,
            None => Seq::<u8>::empty(),
        }) + enc_all(names),
    decreases names.len(),
{
    let base: Seq<u8> = match old {
        Some(b) => b,
        None => Seq::empty(),
    };
    if names.len() == 0 {
        assert(merge_all(old, names) =~= base + enc_all(names));
    } else {
        lemma_merge_all_is_concat(old, names.drop_last());
        assert((base + enc_all(names.drop_last())) + enc_str(names.last()) =~= base + enc_all(
            names,
        ));
    }
}

/// Concurrent appends all survive: any number of appends for one user, applied
/// by the store's atomic merge in whatever order they arrive at it, leave an
/// index holding the names that were there followed by the appended ones — in
/// particular its length grew by exactly the number of appends.
pub proof fn lemma_appends_all_survive(old: Option<Seq<u8>>, names: Seq<Seq<char>>)
    requires
        match old {
            Some(b) => spec_decode_pack(b) is Some,
            None => true,
        },
        all_str_ok(names),
    ensures
        spec_decode_pack(merge_all(old, names)) == Some(
            (match old {
                Some(b) => spec_decode_pack(b)->Some_0,
                None => Seq::<Seq<char>>::empty(),
            }) + names,
        ),
{
    let base: Seq<u8> = match old {
        Some(b) => b,
        None => Seq::empty(),
    };
    assert(spec_decode_pack(Seq::<u8>::empty()) == Some(Seq::<Seq<char>>::empty()));
    lemma_merge_all_is_concat(old, names);
    lemma_pack_append_all(base, names);
}

} // verus!
