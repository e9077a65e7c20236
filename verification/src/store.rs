//! The durable per-user store: a sessions table and an append-only pack-index
//! table, both backed by sled trees. The trees sit behind trusted wrappers
//! whose contracts speak of two abstract maps from user id to stored bytes;
//! the typed layer on top is verified against the codec.

use vstd::prelude::*;
use crate::codec::{
    enc_str, encodable, encode_pack_entry, encode_state, decode_pack_index, decode_state,
    merge_pack_values, spec_decode_pack, spec_decode_state, spec_encode_state, spec_merge, str_ok,
};
use crate::state_machine::{AbstractState, State};

verus! {

/// Storage failure: the backing database could not perform the operation.
#[derive(Clone, Copy, Debug, PartialEq, Eq, Structural)]
pub struct StoreError;

/// The durable store. The sessions tree holds one encoded session per user;
/// the packs tree holds one pack-index value per user and has the append
/// merge operator installed.
#[verifier::external_body]
pub struct Store {
    sessions: sled::Tree,
    packs: sled::Tree,
}

/// The bytes stored under each user in the sessions table.
pub uninterp spec fn session_bytes(s: &Store) -> Map<i64, Seq<u8>>;

/// The bytes stored under each user in the pack-index table.
pub uninterp spec fn pack_bytes(s: &Store) -> Map<i64, Seq<u8>>;

/// The decoded session under a user's key of a sessions table, if it decodes.
pub open spec fn session_of(m: Map<i64, Seq<u8>>, user_id: i64) -> Option<AbstractState> {
    if m.contains_key(user_id) {
        spec_decode_state(m[user_id])
    } else {
        None
    }
}

/// The decoded pack index under a user's key of a pack-index table; an absent
/// value is the empty index.
pub open spec fn pack_index_of(m: Map<i64, Seq<u8>>, user_id: i64) -> Option<Seq<Seq<char>>> {
    if m.contains_key(user_id) {
        spec_decode_pack(m[user_id])
    } else {
        Some(Seq::empty())
    }
}

/// The decoded session of a user.
pub open spec fn spec_session(s: &Store, user_id: i64) -> Option<AbstractState> {
    session_of(session_bytes(s), user_id)
}

/// The decoded pack index of a user.
pub open spec fn spec_pack_index(s: &Store, user_id: i64) -> Option<Seq<Seq<char>>> {
    pack_index_of(pack_bytes(s), user_id)
}

impl Store {
    /// Open the store in the given directory.
    ///
    /// Relies on sled::open and sled::Db::open_tree to open the two trees,
    /// and on sled::Tree::set_merge_operator to install the pack-index merge
    /// operator; the operator closure only calls the library's own verified
    /// `merge_pack_values`. Nothing is promised of the contents: the directory
    /// may hold an earlier database.
    #[verifier::external_body]
    pub fn open(dir: &str) -> (r: Result<Store, StoreError>) {
        let db = sled::open(dir).map_err(|_| StoreError)?;
        let sessions = db.open_tree("session").map_err(|_| StoreError)?;
        let packs = db.open_tree("packs").map_err(|_| StoreError)?;
        packs.set_merge_operator(
            |_key: &[u8], old: Option<&[u8]>, add: &[u8]| Some(merge_pack_values(old, add)),
        );
        Ok(Store { sessions, packs })
    }

    /// Open a store that starts empty and is removed when dropped.
    ///
    /// Relies on sled::Config::temporary beside the functions that `open`
    /// relies on: a temporary database is created at a fresh path, so both
    /// trees start with no keys.
    #[verifier::external_body]
    pub fn open_temporary() -> (r: Result<Store, StoreError>)
        ensures
            match r {
                Ok(s) => session_bytes(&s) == Map::<i64, Seq<u8>>::empty() && pack_bytes(&s)
                    == Map::<i64, Seq<u8>>::empty(),
                Err(_) => true,
            },
    {
        let db = sled::Config::new().temporary(true).open().map_err(|_| StoreError)?;
        let sessions = db.open_tree("session").map_err(|_| StoreError)?;
        let packs = db.open_tree("packs").map_err(|_| StoreError)?;
        packs.set_merge_operator(
            |_key: &[u8], old: Option<&[u8]>, add: &[u8]| Some(merge_pack_values(old, add)),
        );
        Ok(Store { sessions, packs })
    }

    /// Relies on sled::Tree::get: returns the value stored at the key, if any.
    #[verifier::external_body]
    fn raw_get_session(&self, user_id: i64) -> (r: Result<Option<Vec<u8>>, StoreError>)
        ensures
            match r {
                Ok(Some(v)) => session_bytes(self).contains_key(user_id) && v@ == session_bytes(
                    self,
                )[user_id],
                Ok(None) => !session_bytes(self).contains_key(user_id),
                Err(_) => true,
            },
    {
        match self.sessions.get(user_id.to_le_bytes()) {
            Ok(Some(v)) => Ok(Some(v.to_vec())),
            Ok(None) => Ok(None),
            Err(_) => Err(StoreError),
        }
    }

    /// Relies on sled::Tree::insert: stores the value at the key, replacing
    /// any previous value; the two trees hold separate keyspaces, so the
    /// pack-index table is untouched.
    #[verifier::external_body]
    fn raw_set_session(&mut self, user_id: i64, value: &[u8]) -> (r: Result<(), StoreError>)
        ensures
            pack_bytes(final(self)) == pack_bytes(old(self)),
            match r {
                Ok(_) => session_bytes(final(self)) == session_bytes(old(self)).insert(
                    user_id,
                    value@,
                ),
                Err(_) => true,
            },
    {
        match self.sessions.insert(user_id.to_le_bytes(), value) {
            Ok(_) => Ok(()),
            Err(_) => Err(StoreError),
        }
    }

    /// Relies on sled::Tree::remove: deletes the value at the key and returns
    /// the old value, if there was one; the pack-index table is untouched.
    #[verifier::external_body]
    fn raw_del_session(&mut self, user_id: i64) -> (r: Result<Option<Vec<u8>>, StoreError>)
        ensures
            pack_bytes(final(self)) == pack_bytes(old(self)),
            match r {
                Ok(v) => session_bytes(final(self)) == session_bytes(old(self)).remove(user_id)
                    && (match v {
                    Some(b) => session_bytes(old(self)).contains_key(user_id) && b@
                        == session_bytes(old(self))[user_id],
                    None => !session_bytes(old(self)).contains_key(user_id),
                }),
                Err(_) => true,
            },
    {
        match self.sessions.remove(user_id.to_le_bytes()) {
            Ok(Some(v)) => Ok(Some(v.to_vec())),
            Ok(None) => Ok(None),
            Err(_) => Err(StoreError),
        }
    }

    /// Relies on sled::Tree::get: returns the value stored at the key, if any.
    #[verifier::external_body]
    fn raw_get_pack(&self, user_id: i64) -> (r: Result<Option<Vec<u8>>, StoreError>)
        ensures
            match r {
                Ok(Some(v)) => pack_bytes(self).contains_key(user_id) && v@ == pack_bytes(
                    self,
                )[user_id],
                Ok(None) => !pack_bytes(self).contains_key(user_id),
                Err(_) => true,
            },
    {
        match self.packs.get(user_id.to_le_bytes()) {
            Ok(Some(v)) => Ok(Some(v.to_vec())),
            Ok(None) => Ok(None),
            Err(_) => Err(StoreError),
        }
    }

    /// Relies on sled::Tree::merge with the operator installed at open: the
    /// value at the key becomes the operator applied, atomically, to the
    /// previous value (or to nothing) and the supplied bytes; the sessions
    /// table is untouched.
    #[verifier::external_body]
    fn raw_merge_pack(&mut self, user_id: i64, value: &[u8]) -> (r: Result<(), StoreError>)
        ensures
            session_bytes(final(self)) == session_bytes(old(self)),
            match r {
                Ok(_) => pack_bytes(final(self)) == pack_bytes(old(self)).insert(
                    user_id,
                    spec_merge(
                        if pack_bytes(old(self)).contains_key(user_id) {
                            Some(pack_bytes(old(self))[user_id])
                        } else {
                            None
                        },
                        value@,
                    ),
                ),
                Err(_) => true,
            },
    {
        match self.packs.merge(user_id.to_le_bytes(), value) {
            Ok(_) => Ok(()),
            Err(_) => Err(StoreError),
        }
    }

    /// Load a user's session. Absent means no session; a stored record that is
    /// no session's encoding is reported as a storage error.
    pub fn get_session(&self, user_id: i64) -> (r: Result<Option<State>, StoreError>)
        ensures
            match r {
                Ok(Some(st)) => spec_session(self, user_id) == Some(st@),
                Ok(None) => !session_bytes(self).contains_key(user_id),
                Err(_) => true,
            },
    {
        match self.raw_get_session(user_id) {
            Err(e) => Err(e),
            Ok(None) => Ok(None),
            Ok(Some(bytes)) => match decode_state(bytes.as_slice()) {
                Some(st) => Ok(Some(st)),
                None => Err(StoreError),
            },
        }
    }

    /// Store a user's session, overwriting any previous one. On success the
    /// sessions table holds exactly the encoding of the given state under the
    /// user's key, and the pack-index table is unchanged.
    pub fn set_session(&mut self, user_id: i64, state: &State) -> (r: Result<(), StoreError>)
        ensures
            pack_bytes(final(self)) == pack_bytes(old(self)),
            encodable(state@),
            match r {
                Ok(_) => session_bytes(final(self)) == session_bytes(old(self)).insert(
                    user_id,
                    spec_encode_state(state@),
                ),
                Err(_) => true,
            },
    {
        let bytes = encode_state(state);
        self.raw_set_session(user_id, bytes.as_slice())
    }

    /// Delete a user's session and report the one that was stored, if any. On
    /// success the user has no session and the pack-index table is unchanged;
    /// a stored record that is no session's encoding is reported as a storage
    /// error.
    pub fn delete_session(&mut self, user_id: i64) -> (r: Result<Option<State>, StoreError>)
        ensures
            pack_bytes(final(self)) == pack_bytes(old(self)),
            match r {
                Ok(prev) => session_bytes(final(self)) == session_bytes(old(self)).remove(user_id)
                    && (match prev {
                    Some(st) => session_of(session_bytes(old(self)), user_id) == Some(st@),
                    None => !session_bytes(old(self)).contains_key(user_id),
                }),
                Err(_) => true,
            },
    {
        match self.raw_del_session(user_id) {
            Err(e) => Err(e),
            Ok(None) => Ok(None),
            Ok(Some(bytes)) => match decode_state(bytes.as_slice()) {
                Some(st) => Ok(Some(st)),
                None => Err(StoreError),
            },
        }
    }

    /// Load a user's pack index, in append order; a user with no stored value
    /// has the empty index. A stored value that is no index's encoding is
    /// reported as a storage error.
    pub fn get_pack_index(&self, user_id: i64) -> (r: Result<Vec<String>, StoreError>)
        ensures
            match r {
                Ok(v) => spec_pack_index(self, user_id) == Some(v.deep_view()),
                Err(_) => true,
            },
    {
        match self.raw_get_pack(user_id) {
            Err(e) => Err(e),
            Ok(None) => {
                let empty: Vec<String> = Vec::new();
                proof {
                    assert(empty.deep_view() =~= Seq::<Seq<char>>::empty());
                }
                Ok(empty)
            },
            Ok(Some(bytes)) => match decode_pack_index(bytes.as_slice()) {
                Some(v) => Ok(v),
                None => Err(StoreError),
            },
        }
    }

    /// Append one pack name to a user's index: an atomic read-modify-write
    /// inside the store, so appends racing on the same user all survive. On
    /// success the stored value is the previous one (or nothing) with the
    /// encoded name merged after it, and the sessions table is unchanged.
    pub fn append_pack_name(&mut self, user_id: i64, name: &str) -> (r: Result<(), StoreError>)
        ensures
            session_bytes(final(self)) == session_bytes(old(self)),
            str_ok(name@),
            match r {
                Ok(_) => pack_bytes(final(self)) == pack_bytes(old(self)).insert(
                    user_id,
                    spec_merge(
                        if pack_bytes(old(self)).contains_key(user_id) {
                            Some(pack_bytes(old(self))[user_id])
                        } else {
                            None
                        },
                        enc_str(name@),
                    ),
                ),
                Err(_) => true,
            },
    {
        let entry = encode_pack_entry(name);
        self.raw_merge_pack(user_id, entry.as_slice())
    }
}

/// Round trip: a session persisted by `set_session` is exactly what
/// `get_session` yields for that user afterwards — for every state, including
/// ones carrying binary image payloads.
pub proof fn lemma_set_get_round_trip(m: Map<i64, Seq<u8>>, user_id: i64, st: AbstractState)
    requires
        encodable(st),
    ensures
        session_of(m.insert(user_id, spec_encode_state(st)), user_id) == Some(st),
{
    crate::codec::lemma_state_round_trip(st);
}

} // verus!
