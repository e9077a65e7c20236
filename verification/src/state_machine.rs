//! The per-user conversation state machine: a pure, total transition function
//! from `(State, Event)` to `State`, plus the prompt projection and the
//! publishability test.

use vstd::prelude::*;
use vstd::string::StringExecFns;

verus! {

/// Whether the session is creating a new pack or extending an existing one.
#[derive(Clone, Copy, Debug, PartialEq, Eq, Structural)]
pub enum Pack {
    New,
    Existing,
}

/// Mathematical model of a session state: the same shape as `State`, with
/// strings and byte vectors replaced by their sequence abstractions.
pub enum AbstractState {
    Start { pack: Pack },
    Name { pack: Pack, name: Seq<char> },
    Sticker { pack: Pack, name: Seq<char>, file: Seq<u8> },
    Emojis { pack: Pack, name: Seq<char>, emojis: Seq<char>, file: Seq<u8> },
    Title { pack: Pack, name: Seq<char>, title: Seq<char>, emojis: Seq<char>, file: Seq<u8> },
    End {
        pack: Pack,
        title: Option<Seq<char>>,
        emojis: Seq<char>,
        file: Seq<u8>,
        name: Seq<char>,
        user_id: i64,
    },
}

/// Mathematical model of an event.
pub enum AbstractEvent {
    AddName { name: Seq<char> },
    AddSticker { file: Seq<u8> },
    AddEmojis { emojis: Seq<char> },
    AddTitle { title: Seq<char> },
    AddUserId { user_id: i64 },
    DoNothing,
}

/// A session state. Each variant carries the fields accumulated so far; `End`
/// holds everything a publish call needs, with `title` present exactly when a
/// new pack is being created.
#[derive(Debug, PartialEq, Eq)]
pub enum State {
    Start(Pack),
    Name { pack: Pack, name: String },
    Sticker { pack: Pack, name: String, file: Vec<u8> },
    Emojis { pack: Pack, name: String, emojis: String, file: Vec<u8> },
    Title { pack: Pack, name: String, title: String, emojis: String, file: Vec<u8> },
    End {
        pack: Pack,
        title: Option<String>,
        emojis: String,
        file: Vec<u8>,
        name: String,
        user_id: i64,
    },
}

/// A classified, domain-level input to the state machine. Events are derived
/// from raw updates by the dispatcher, never constructed by the machine.
#[derive(Debug, PartialEq, Eq)]
pub enum Event {
    AddName { name: String },
    AddSticker { file: Vec<u8> },
    AddEmojis { emojis: String },
    AddTitle { title: String },
    AddUserId { user_id: i64 },
    DoNothing,
}

impl View for State {
    type V = AbstractState;

    open spec fn view(&self) -> AbstractState {
        match self {
            State::Start(pack) => AbstractState::Start { pack: *pack },
            State::Name { pack, name } => AbstractState::Name { pack: *pack, name: name@ },
            State::Sticker { pack, name, file } => AbstractState::Sticker {
                pack: *pack,
                name: name@,
                file: file@,
            },
            State::Emojis { pack, name, emojis, file } => AbstractState::Emojis {
                pack: *pack,
                name: name@,
                emojis: emojis@,
                file: file@,
            },
            State::Title { pack, name, title, emojis, file } => AbstractState::Title {
                pack: *pack,
                name: name@,
                title: title@,
                emojis: emojis@,
                file: file@,
            },
            State::End { pack, title, emojis, file, name, user_id } => AbstractState::End {
                pack: *pack,
                title: match title {
                    Some(t) => Some(t@),
                    None => None,
                },
                emojis: emojis@,
                file: file@,
                name: name@,
                user_id: *user_id,
            },
        }
    }
}

impl View for Event {
    type V = AbstractEvent;

    open spec fn view(&self) -> AbstractEvent {
        match self {
            Event::AddName { name } => AbstractEvent::AddName { name: name@ },
            Event::AddSticker { file } => AbstractEvent::AddSticker { file: file@ },
            Event::AddEmojis { emojis } => AbstractEvent::AddEmojis { emojis: emojis@ },
            Event::AddTitle { title } => AbstractEvent::AddTitle { title: title@ },
            Event::AddUserId { user_id } => AbstractEvent::AddUserId { user_id: *user_id },
            Event::DoNothing => AbstractEvent::DoNothing,
        }
    }
}

/// The transition table. Any pair not listed below is a no-op.
pub open spec fn spec_next(s: AbstractState, e: AbstractEvent) -> AbstractState {
    match (s, e) {
        (AbstractState::Start { pack }, AbstractEvent::AddName { name }) => AbstractState::Name {
            pack,
            name,
        },
        (
            AbstractState::Name { pack, name },
            AbstractEvent::AddSticker { file },
        ) => AbstractState::Sticker { pack, name, file },
        (
            AbstractState::Sticker { pack, name, file },
            AbstractEvent::AddEmojis { emojis },
        ) => AbstractState::Emojis { pack, name, emojis, file },
        (
            AbstractState::Emojis { pack: Pack::New, name, emojis, file },
            AbstractEvent::AddTitle { title },
        ) => AbstractState::Title { pack: Pack::New, name, title, emojis, file },
        (
            AbstractState::Emojis { pack: Pack::Existing, name, emojis, file },
            AbstractEvent::AddUserId { user_id },
        ) => AbstractState::End {
            pack: Pack::Existing,
            title: None,
            emojis,
            file,
            name,
            user_id,
        },
        (
            AbstractState::Title { pack: Pack::New, name, title, emojis, file },
            AbstractEvent::AddUserId { user_id },
        ) => AbstractState::End {
            pack: Pack::New,
            title: Some(title),
            emojis,
            file,
            name,
            user_id,
        },
        (s, _) => s,
    }
}

/// True exactly on the `(state, event)` pairs that the transition table lists.
pub open spec fn table_matches(s: AbstractState, e: AbstractEvent) -> bool {
    ||| (s is Start && e is AddName)
    ||| (s is Name && e is AddSticker)
    ||| (s is Sticker && e is AddEmojis)
    ||| ((s matches AbstractState::Emojis { pack: Pack::New, .. }) && e is AddTitle)
    ||| ((s matches AbstractState::Emojis { pack: Pack::Existing, .. }) && e is AddUserId)
    ||| ((s matches AbstractState::Title { pack: Pack::New, .. }) && e is AddUserId)
}

/// Totality law: an event that matches no row of the transition table leaves
/// the state unchanged — the machine never rejects an input.
pub proof fn lemma_next_noop(s: AbstractState, e: AbstractEvent)
    ensures
        !table_matches(s, e) ==> spec_next(s, e) == s,
{
}

/// The prompt shown after each transition: the next instruction for the user.
pub open spec fn spec_prompt(s: AbstractState) -> Seq<char> {
    match s {
        AbstractState::Start { .. } => "Send name: "@,
        AbstractState::Name { .. } => "Send photo or sticker: "@,
        AbstractState::Sticker { .. } => "Send emoji: "@,
        AbstractState::Emojis { pack, .. } => if pack is New {
            "Send title: "@
        } else {
            "Send /publish"@
        },
        AbstractState::Title { .. } => "Send /publish"@,
        AbstractState::End { .. } => "Send /publish"@,
    }
}

impl Pack {
    /// The target that an exact start command names; any other text is
    /// refused with the fixed complaint.
    pub fn from_command(text: &str) -> (r: Result<Pack, &'static str>)
        ensures
            match r {
                Ok(p) => (text@ == "/new_pack"@ && p is New) || (text@ == "/add_to_pack"@
                    && p is Existing),
                Err(e) => text@ != "/new_pack"@ && text@ != "/add_to_pack"@ && e@
                    == "only new_pack and add_to_pack is allowed"@,
            },
    {
        if crate::text::str_eq(text, "/new_pack") {
            Ok(Pack::New)
        } else if crate::text::str_eq(text, "/add_to_pack") {
            Ok(Pack::Existing)
        } else {
            Err("only new_pack and add_to_pack is allowed")
        }
    }
}

impl State {
    /// A fresh session: waiting for a pack name, with the chosen target.
    pub fn new(start: Pack) -> (r: State)
        ensures
            r@ == (AbstractState::Start { pack: start }),
    {
        State::Start(start)
    }

    /// Apply one event. Total: pairs outside the transition table return the
    /// input state unchanged.
    pub fn next(self, event: Event) -> (r: State)
        ensures
            r@ == spec_next(self@, event@),
    {
        match (self, event) {
            (State::Start(pack), Event::AddName { name }) => State::Name { name, pack },
            (State::Name { name, pack }, Event::AddSticker { file }) => State::Sticker {
                name,
                file,
                pack,
            },
            (State::Sticker { name, file, pack }, Event::AddEmojis { emojis }) => State::Emojis {
                name,
                file,
                emojis,
                pack,
            },
            (
                State::Emojis { file, emojis, name, pack: Pack::New },
                Event::AddTitle { title },
            ) => State::Title { file, emojis, title, name, pack: Pack::New },
            (
                State::Emojis { file, emojis, name, pack: Pack::Existing },
                Event::AddUserId { user_id },
            ) => State::End {
                file,
                emojis,
                name,
                user_id,
                title: None,
                pack: Pack::Existing,
            },
            (
                State::Title { file, emojis, title, name, pack: Pack::New },
                Event::AddUserId { user_id },
            ) => State::End {
                file,
                emojis,
                name,
                user_id,
                title: Some(title),
                pack: Pack::New,
            },
            (state, _) => state,
        }
    }

    /// True exactly on `End`: every required field is present and the session
    /// can be handed to the publisher.
    pub fn is_publishable(&self) -> (r: bool)
        ensures
            r == (self@ is End),
    {
        match self {
            State::End { .. } => true,
            _ => false,
        }
    }

    /// The next instruction to show the user.
    pub fn prompt(&self) -> (r: String)
        ensures
            r@ == spec_prompt(self@),
    {
        match self {
            State::Start(..) => String::from_str("Send name: "),
            State::Name { .. } => String::from_str("Send photo or sticker: "),
            State::Sticker { .. } => String::from_str("Send emoji: "),
            State::Emojis { pack: Pack::New, .. } => String::from_str("Send title: "),
            State::Emojis { pack: Pack::Existing, .. } => String::from_str("Send /publish"),
            State::Title { .. } => String::from_str("Send /publish"),
            State::End { .. } => String::from_str("Send /publish"),
        }
    }
}

} // verus!
