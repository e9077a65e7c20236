//! The update dispatcher: classify one inbound chat message, authorize it,
//! apply exactly one session transition, persist it, and decide the outbound
//! action. The transport performs the action and feeds results back through
//! `handle_image` and `publish_succeeded`.

use vstd::prelude::*;
use vstd::string::StringExecFns;
use crate::codec::{enc_str, spec_encode_state, spec_merge};
use crate::state_machine::{AbstractEvent, AbstractState, Event, Pack, State, spec_next,
    spec_prompt};
use crate::store::{pack_index_of, session_of, pack_bytes, session_bytes, Store, StoreError};
use crate::text::{concat_str, first_token_after, has_prefix, has_suffix, str_ends_with,
    str_starts_with, token_after_prefixes};

verus! {

/// What the dispatcher knows of the bot: the one authorized user and the
/// bot's own name, which pack names carry as a suffix.
pub struct BotConfig {
    pub user_id: i64,
    pub bot_name: String,
}

/// The content of one inbound chat message, as the transport hands it over.
#[derive(Debug, PartialEq, Eq)]
pub enum MessageContent {
    Text { text: String },
    /// The sizes of one photo, smallest first; the last is fetched.
    Photo { file_ids: Vec<String> },
    Document { file_id: String, mime_type: Option<String> },
    Sticker { file_id: String, set_name: Option<String> },
    Other,
}

/// One inbound chat message: its sender, its chat, and its content.
#[derive(Debug, PartialEq, Eq)]
pub struct IncomingMessage {
    pub from: Option<i64>,
    pub chat_id: i64,
    pub content: MessageContent,
}

/// One inbound update, which may carry a message.
#[derive(Debug, PartialEq, Eq)]
pub struct Update {
    pub message: Option<IncomingMessage>,
}

/// Everything one publish call needs, and the public pack URL to announce on
/// success.
#[derive(Debug, PartialEq, Eq)]
pub struct PublishRequest {
    pub user_id: i64,
    pub name: String,
    pub emojis: String,
    pub file: Vec<u8>,
    pub title: Option<String>,
    pub url: String,
    pub pack: Pack,
}

/// Mathematical model of a publish request.
pub struct AbstractPublishRequest {
    pub user_id: i64,
    pub name: Seq<char>,
    pub emojis: Seq<char>,
    pub file: Seq<u8>,
    pub title: Option<Seq<char>>,
    pub url: Seq<char>,
    pub pack: Pack,
}

/// The outbound action the transport must perform after a dispatch.
#[derive(Debug, PartialEq, Eq)]
pub enum Action {
    /// Send a plain text reply.
    Reply { chat_id: i64, text: String },
    /// Send a reply offering a choice among the given pack names.
    ReplyWithChoices { chat_id: i64, text: String, choices: Vec<String> },
    /// Fetch the file, normalize the bytes, and hand them to `handle_image`.
    FetchImage { file_id: String },
    /// Ask the remote set to remove this sticker, then send the confirmation.
    DeleteSticker { file_id: String, chat_id: i64, confirmation: String },
    /// Call the publisher; on success call `publish_succeeded`.
    Publish { request: PublishRequest },
    /// Nothing to do.
    Nothing,
}

/// Mathematical model of an action.
pub enum AbstractAction {
    Reply { chat_id: i64, text: Seq<char> },
    ReplyWithChoices { chat_id: i64, text: Seq<char>, choices: Seq<Seq<char>> },
    FetchImage { file_id: Seq<char> },
    DeleteSticker { file_id: Seq<char>, chat_id: i64, confirmation: Seq<char> },
    Publish { request: AbstractPublishRequest },
    Nothing,
}

impl View for PublishRequest {
    type V = AbstractPublishRequest;

    open spec fn view(&self) -> AbstractPublishRequest {
        AbstractPublishRequest {
            user_id: self.user_id,
            name: self.name@,
            emojis: self.emojis@,
            file: self.file@,
            title: match self.title {
                Some(t) => Some(t@),
                None => None,
            },
            url: self.url@,
            pack: self.pack,
        }
    }
}

impl View for Action {
    type V = AbstractAction;

    open spec fn view(&self) -> AbstractAction {
        match self {
            Action::Reply { chat_id, text } => AbstractAction::Reply {
                chat_id: *chat_id,
                text: text@,
            },
            Action::ReplyWithChoices { chat_id, text, choices } => AbstractAction::ReplyWithChoices {
                chat_id: *chat_id,
                text: text@,
                choices: choices.deep_view(),
            },
            Action::FetchImage { file_id } => AbstractAction::FetchImage { file_id: file_id@ },
            Action::DeleteSticker { file_id, chat_id, confirmation } => AbstractAction::DeleteSticker {
                file_id: file_id@,
                chat_id: *chat_id,
                confirmation: confirmation@,
            },
            Action::Publish { request } => AbstractAction::Publish { request: request@ },
            Action::Nothing => AbstractAction::Nothing,
        }
    }
}

/// The public URL of a pack.
pub open spec fn spec_pack_url(name: Seq<char>) -> Seq<char> {
    "https://t.me/addstickers/"@ + name
}

/// A text that resets the session and starts collecting a pack.
pub open spec fn is_start_cmd(t: Seq<char>) -> bool {
    has_prefix(t, "/new_pack"@) || has_prefix(t, "/add_to_pack"@)
}

/// The target that a start command chooses.
pub open spec fn start_target(t: Seq<char>) -> Pack {
    if has_prefix(t, "/new_pack"@) {
        Pack::New
    } else {
        Pack::Existing
    }
}

/// The event that plain text means, relative to the current state: a name
/// while one is awaited (with the bot's suffix attached), emoji tags while
/// those are awaited, a title while one is awaited, nothing otherwise.
pub open spec fn spec_text_event(st: AbstractState, text: Seq<char>, bot: Seq<char>) -> AbstractEvent {
    match st {
        AbstractState::Start { .. } => AbstractEvent::AddName { name: text + "_by_"@ + bot },
        AbstractState::Sticker { .. } => AbstractEvent::AddEmojis { emojis: text },
        AbstractState::Emojis { .. } => AbstractEvent::AddTitle { title: text },
        _ => AbstractEvent::DoNothing,
    }
}

/// The reply sent whenever a publish is requested but the session is not
/// ready for one.
pub open spec fn cannot_publish(u: i64) -> AbstractAction {
    AbstractAction::Reply { chat_id: u, text: "cannot publish yet"@ }
}

/// What `/publish` produces: confirming a session that awaits only the
/// confirmation yields a publish request; anything else is told it cannot
/// publish yet, and nothing is stored either way.
pub open spec fn publish_outcome(pre_s: Map<i64, Seq<u8>>, u: i64, a: AbstractAction) -> bool {
    match session_of(pre_s, u) {
        Some(st) => if st is Emojis || st is Title {
            match spec_next(st, AbstractEvent::AddUserId { user_id: u }) {
                AbstractState::End { pack, title, emojis, file, name, user_id } => a
                    == AbstractAction::Publish {
                    request: AbstractPublishRequest {
                        user_id,
                        name,
                        emojis,
                        file,
                        title,
                        url: spec_pack_url(name),
                        pack,
                    },
                },
                _ => a == cannot_publish(u),
            }
        } else {
            a == cannot_publish(u)
        },
        None => a == cannot_publish(u),
    }
}

/// A `/publish` in any state short of confirmation — awaiting its sticker,
/// for instance — cannot publish: the only action the dispatcher may yield is
/// the fixed refusal, and `text_message` keeps both tables unchanged on that
/// path, so the session is exactly as it was.
pub proof fn lemma_publish_needs_a_ready_session(
    pre_s: Map<i64, Seq<u8>>,
    u: i64,
    a: AbstractAction,
)
    requires
        publish_outcome(pre_s, u, a),
        match session_of(pre_s, u) {
            Some(st) => !(st is Emojis || st is Title),
            None => true,
        },
    ensures
        a == cannot_publish(u),
{
}

/// What dispatching one text from the authorized user does to the two tables
/// and which action it yields, when it succeeds. The branches follow the
/// classification order: start commands, `/publish`, `/add_sticker_pack`,
/// then plain text against the current session.
pub open spec fn text_outcome(
    pre_s: Map<i64, Seq<u8>>,
    pre_p: Map<i64, Seq<u8>>,
    post_s: Map<i64, Seq<u8>>,
    post_p: Map<i64, Seq<u8>>,
    a: AbstractAction,
    u: i64,
    text: Seq<char>,
    bot: Seq<char>,
) -> bool {
    if is_start_cmd(text) {
        let st = AbstractState::Start { pack: start_target(text) };
        &&& post_s == pre_s.insert(u, spec_encode_state(st))
        &&& post_p == pre_p
        &&& (match start_target(text) {
            Pack::New => a == AbstractAction::Reply { chat_id: u, text: spec_prompt(st) },
            Pack::Existing => match a {
                AbstractAction::ReplyWithChoices { chat_id, text: t, choices } => chat_id == u && t
                    == "choose your pack"@ && pack_index_of(pre_p, u) == Some(choices),
                _ => false,
            },
        })
    } else if has_prefix(text, "/publish"@) {
        &&& post_s == pre_s
        &&& post_p == pre_p
        &&& publish_outcome(pre_s, u, a)
    } else if has_prefix(text, "/add_sticker_pack"@) {
        &&& post_s == pre_s
        &&& (match first_token_after(text, "/add_sticker_pack "@) {
            Some(tok) => if has_suffix(tok, "by_"@ + bot) {
                &&& post_p == pre_p.insert(
                    u,
                    spec_merge(
                        if pre_p.contains_key(u) {
                            Some(pre_p[u])
                        } else {
                            None
                        },
                        enc_str(tok),
                    ),
                )
                &&& a == AbstractAction::Reply {
                    chat_id: u,
                    text: "added to user sticker packs "@ + tok,
                }
            } else {
                &&& post_p == pre_p
                &&& a == AbstractAction::Reply { chat_id: u, text: "name not found"@ }
            },
            None => {
                &&& post_p == pre_p
                &&& a == AbstractAction::Reply { chat_id: u, text: "name not found"@ }
            },
        })
    } else {
        if !pre_s.contains_key(u) {
            &&& post_s == pre_s
            &&& post_p == pre_p
            &&& a == AbstractAction::Reply { chat_id: u, text }
        } else {
            match session_of(pre_s, u) {
                Some(st) => {
                    let st2 = spec_next(st, spec_text_event(st, text, bot));
                    &&& post_s == pre_s.insert(u, spec_encode_state(st2))
                    &&& post_p == pre_p
                    &&& a == AbstractAction::Reply { chat_id: u, text: spec_prompt(st2) }
                },
                None => true,
            }
        }
    }
}

/// Dispatch one text message from the authorized user: classify it, apply at
/// most one transition, persist before replying, and yield the action. The
/// `/publish` path stores nothing, so a failed publish call finds the session
/// exactly as it was.
pub fn text_message(store: &mut Store, cfg: &BotConfig, user_id: i64, text: String) -> (r: Result<
    Action,
    StoreError,
>)
    ensures
        !is_start_cmd(text@) && has_prefix(text@, "/publish"@) ==> session_bytes(final(store))
            == session_bytes(old(store)) && pack_bytes(final(store)) == pack_bytes(old(store)),
        !is_start_cmd(text@) && !has_prefix(text@, "/publish"@) && has_prefix(
            text@,
            "/add_sticker_pack"@,
        ) ==> session_bytes(final(store)) == session_bytes(old(store)),
        is_start_cmd(text@) || !has_prefix(text@, "/publish"@) && !has_prefix(
            text@,
            "/add_sticker_pack"@,
        ) ==> pack_bytes(final(store)) == pack_bytes(old(store)),
        !is_start_cmd(text@) && !has_prefix(text@, "/publish"@) && has_prefix(
            text@,
            "/add_sticker_pack"@,
        ) && (match first_token_after(text@, "/add_sticker_pack "@) {
            Some(tok) => !has_suffix(tok, "by_"@ + cfg.bot_name@),
            None => true,
        }) ==> r is Ok,
        match r {
            Ok(a) => text_outcome(
                session_bytes(old(store)),
                pack_bytes(old(store)),
                session_bytes(final(store)),
                pack_bytes(final(store)),
                a@,
                user_id,
                text@,
                cfg.bot_name@,
            ),
            Err(_) => true,
        },
{
    if str_starts_with(text.as_str(), "/new_pack") || str_starts_with(
        text.as_str(),
        "/add_to_pack",
    ) {
        let target = if str_starts_with(text.as_str(), "/new_pack") {
            Pack::New
        } else {
            Pack::Existing
        };
        let state = State::new(target);
        match target {
            Pack::New => {
                let reply = state.prompt();
                match store.set_session(user_id, &state) {
                    Ok(_) => Ok(Action::Reply { chat_id: user_id, text: reply }),
                    Err(e) => Err(e),
                }
            },
            Pack::Existing => {
                let choices = match store.get_pack_index(user_id) {
                    Ok(c) => c,
                    Err(e) => {
                        return Err(e);
                    },
                };
                match store.set_session(user_id, &state) {
                    Ok(_) => Ok(
                        Action::ReplyWithChoices {
                            chat_id: user_id,
                            text: String::from_str("choose your pack"),
                            choices,
                        },
                    ),
                    Err(e) => Err(e),
                }
            },
        }
    } else if str_starts_with(text.as_str(), "/publish") {
        let sess = match store.get_session(user_id) {
            Ok(s) => s,
            Err(e) => {
                return Err(e);
            },
        };
        match sess {
            Some(st) => {
                let applicable = match &st {
                    State::Emojis { .. } => true,
                    State::Title { .. } => true,
                    _ => false,
                };
                if applicable {
                    let st2 = st.next(Event::AddUserId { user_id });
                    match st2 {
                        State::End { pack, title, emojis, file, name, user_id: uid } => {
                            let url = concat_str("https://t.me/addstickers/", name.as_str());
                            Ok(
                                Action::Publish {
                                    request: PublishRequest {
                                        user_id: uid,
                                        name,
                                        emojis,
                                        file,
                                        title,
                                        url,
                                        pack,
                                    },
                                },
                            )
                        },
                        _ => Ok(
                            Action::Reply {
                                chat_id: user_id,
                                text: String::from_str("cannot publish yet"),
                            },
                        ),
                    }
                } else {
                    Ok(
                        Action::Reply {
                            chat_id: user_id,
                            text: String::from_str("cannot publish yet"),
                        },
                    )
                }
            },
            None => Ok(
                Action::Reply { chat_id: user_id, text: String::from_str("cannot publish yet") },
            ),
        }
    } else if str_starts_with(text.as_str(), "/add_sticker_pack") {
        let token = token_after_prefixes(text.as_str(), "/add_sticker_pack ");
        match token {
            Some(name) => {
                let suffix = concat_str("by_", cfg.bot_name.as_str());
                if str_ends_with(name.as_str(), suffix.as_str()) {
                    match store.append_pack_name(user_id, name.as_str()) {
                        Ok(_) => Ok(
                            Action::Reply {
                                chat_id: user_id,
                                text: concat_str(
                                    "added to user sticker packs ",
                                    name.as_str(),
                                ),
                            },
                        ),
                        Err(e) => Err(e),
                    }
                } else {
                    Ok(
                        Action::Reply {
                            chat_id: user_id,
                            text: String::from_str("name not found"),
                        },
                    )
                }
            },
            None => Ok(
                Action::Reply { chat_id: user_id, text: String::from_str("name not found") },
            ),
        }
    } else {
        let sess = match store.get_session(user_id) {
            Ok(s) => s,
            Err(e) => {
                return Err(e);
            },
        };
        match sess {
            Some(st) => {
                let event = match &st {
                    State::Start(_) => Event::AddName {
                        name: concat_str(text.as_str(), "_by_").concat(cfg.bot_name.as_str()),
                    },
                    State::Sticker { .. } => Event::AddEmojis { emojis: text },
                    State::Emojis { .. } => Event::AddTitle { title: text },
                    _ => Event::DoNothing,
                };
                let st2 = st.next(event);
                let reply = st2.prompt();
                match store.set_session(user_id, &st2) {
                    Ok(_) => Ok(Action::Reply { chat_id: user_id, text: reply }),
                    Err(e) => Err(e),
                }
            },
            None => Ok(Action::Reply { chat_id: user_id, text }),
        }
    }
}

/// Dispatch one normalized image: it advances a session that awaits a sticker
/// and is stored before the prompt is sent; in any other state nothing is
/// stored and the sender is told it was not expected.
pub fn handle_image(store: &mut Store, user_id: i64, image: Vec<u8>) -> (r: Result<
    Action,
    StoreError,
>)
    ensures
        pack_bytes(final(store)) == pack_bytes(old(store)),
        match r {
            Ok(a) => match session_of(session_bytes(old(store)), user_id) {
                Some(st) => if st is Name {
                    let st2 = spec_next(st, AbstractEvent::AddSticker { file: image@ });
                    &&& session_bytes(final(store)) == session_bytes(old(store)).insert(
                        user_id,
                        spec_encode_state(st2),
                    )
                    &&& a@ == AbstractAction::Reply { chat_id: user_id, text: spec_prompt(st2) }
                } else {
                    &&& session_bytes(final(store)) == session_bytes(old(store))
                    &&& a@ == AbstractAction::Reply { chat_id: user_id, text: "not expected now"@ }
                },
                None => {
                    &&& session_bytes(final(store)) == session_bytes(old(store))
                    &&& a@ == AbstractAction::Reply { chat_id: user_id, text: "not expected now"@ }
                },
            },
            Err(_) => true,
        },
{
    let sess = match store.get_session(user_id) {
        Ok(s) => s,
        Err(e) => {
            return Err(e);
        },
    };
    match sess {
        Some(st) => {
            let awaiting = match &st {
                State::Name { .. } => true,
                _ => false,
            };
            if awaiting {
                let st2 = st.next(Event::AddSticker { file: image });
                let reply = st2.prompt();
                match store.set_session(user_id, &st2) {
                    Ok(_) => Ok(Action::Reply { chat_id: user_id, text: reply }),
                    Err(e) => Err(e),
                }
            } else {
                Ok(Action::Reply { chat_id: user_id, text: String::from_str("not expected now") })
            }
        },
        None => Ok(
            Action::Reply { chat_id: user_id, text: String::from_str("not expected now") },
        ),
    }
}

/// After the remote publish call succeeded: for a new pack the name joins the
/// user's index, and the session is deleted either way. A failed publish call
/// must not reach here, so the session survives it for a retry.
pub fn publish_succeeded(store: &mut Store, request: &PublishRequest) -> (r: Result<
    (),
    StoreError,
>)
    ensures
        request.pack is Existing ==> pack_bytes(final(store)) == pack_bytes(old(store)),
        match r {
            Ok(_) => {
                &&& session_bytes(final(store)) == session_bytes(old(store)).remove(
                    request.user_id,
                )
                &&& pack_bytes(final(store)) == (if request.pack is New {
                    pack_bytes(old(store)).insert(
                        request.user_id,
                        spec_merge(
                            if pack_bytes(old(store)).contains_key(request.user_id) {
                                Some(pack_bytes(old(store))[request.user_id])
                            } else {
                                None
                            },
                            enc_str(request.name@),
                        ),
                    )
                } else {
                    pack_bytes(old(store))
                })
            },
            Err(_) => true,
        },
{
    match request.pack {
        Pack::New => {
            match store.append_pack_name(request.user_id, request.name.as_str()) {
                Ok(_) => {},
                Err(e) => {
                    return Err(e);
                },
            }
        },
        Pack::Existing => {},
    }
    match store.delete_session(request.user_id) {
        Ok(_) => Ok(()),
        Err(e) => Err(e),
    }
}

/// What dispatching one inbound message does, when it succeeds: a sender
/// other than the owner is turned away before any store access; for the owner,
/// text goes through the text classification, while photos, documents and
/// stickers yield fetch or delete actions and leave the store alone.
pub open spec fn message_outcome(
    pre_s: Map<i64, Seq<u8>>,
    pre_p: Map<i64, Seq<u8>>,
    post_s: Map<i64, Seq<u8>>,
    post_p: Map<i64, Seq<u8>>,
    a: AbstractAction,
    owner: i64,
    bot: Seq<char>,
    msg: IncomingMessage,
) -> bool {
    match msg.from {
        None => {
            &&& post_s == pre_s
            &&& post_p == pre_p
            &&& a == AbstractAction::Reply {
                chat_id: msg.chat_id,
                text: "cannot find user id(you shouldn't be here)"@,
            }
        },
        Some(uid) => if uid != owner {
            &&& post_s == pre_s
            &&& post_p == pre_p
            &&& a == AbstractAction::Reply {
                chat_id: uid,
                text: "sorry bot is not working for you"@,
            }
        } else {
            match msg.content {
                MessageContent::Text { text } => text_outcome(
                    pre_s,
                    pre_p,
                    post_s,
                    post_p,
                    a,
                    uid,
                    text@,
                    bot,
                ),
                MessageContent::Photo { file_ids } => {
                    &&& post_s == pre_s
                    &&& post_p == pre_p
                    &&& (if file_ids@.len() > 0 {
                        a == AbstractAction::FetchImage {
                            file_id: file_ids@[file_ids@.len() - 1]@,
                        }
                    } else {
                        a == AbstractAction::Reply {
                            chat_id: uid,
                            text: "something went wrong"@,
                        }
                    })
                },
                MessageContent::Document { file_id, mime_type } => {
                    &&& post_s == pre_s
                    &&& post_p == pre_p
                    &&& (match mime_type {
                        Some(mime) => if has_prefix(mime@, "image/"@) {
                            a == AbstractAction::FetchImage { file_id: file_id@ }
                        } else {
                            a == AbstractAction::Reply {
                                chat_id: uid,
                                text: "it's not image"@,
                            }
                        },
                        None => a == AbstractAction::Reply {
                            chat_id: uid,
                            text: "it's not image"@,
                        },
                    })
                },
                MessageContent::Sticker { file_id, set_name } => {
                    &&& post_s == pre_s
                    &&& post_p == pre_p
                    &&& (match set_name {
                        Some(set) => if has_suffix(set@, bot) {
                            a == AbstractAction::DeleteSticker {
                                file_id: file_id@,
                                chat_id: uid,
                                confirmation: "sticker deleted"@,
                            }
                        } else {
                            a == AbstractAction::FetchImage { file_id: file_id@ }
                        },
                        None => a == AbstractAction::FetchImage { file_id: file_id@ },
                    })
                },
                MessageContent::Other => {
                    &&& post_s == pre_s
                    &&& post_p == pre_p
                    &&& a == AbstractAction::Reply {
                        chat_id: uid,
                        text: "something went wrong"@,
                    }
                },
            }
        },
    }
}

/// Dispatch one inbound message: authorize the sender, then act on the
/// content. Only text and a normalized image ever touch the store; a sender
/// other than the configured owner never reaches it.
pub fn message_process(store: &mut Store, cfg: &BotConfig, msg: IncomingMessage) -> (r: Result<
    Action,
    StoreError,
>)
    ensures
        msg.from != Some(cfg.user_id) ==> r is Ok && session_bytes(final(store)) == session_bytes(
            old(store),
        ) && pack_bytes(final(store)) == pack_bytes(old(store)),
        msg.from == Some(cfg.user_id) && !(msg.content is Text) ==> r is Ok,
        !(msg.content is Text) ==> session_bytes(final(store)) == session_bytes(old(store))
            && pack_bytes(final(store)) == pack_bytes(old(store)),
        (match msg.content {
            MessageContent::Text { text } => !is_start_cmd(text@) && has_prefix(
                text@,
                "/publish"@,
            ),
            _ => false,
        }) ==> session_bytes(final(store)) == session_bytes(old(store)) && pack_bytes(
            final(store),
        ) == pack_bytes(old(store)),
        match r {
            Ok(a) => message_outcome(
                session_bytes(old(store)),
                pack_bytes(old(store)),
                session_bytes(final(store)),
                pack_bytes(final(store)),
                a@,
                cfg.user_id,
                cfg.bot_name@,
                msg,
            ),
            Err(_) => true,
        },
{
    let user_id = match msg.from {
        Some(uid) => {
            if uid != cfg.user_id {
                return Ok(
                    Action::Reply {
                        chat_id: uid,
                        text: String::from_str("sorry bot is not working for you"),
                    },
                );
            }
            uid
        },
        None => {
            return Ok(
                Action::Reply {
                    chat_id: msg.chat_id,
                    text: String::from_str("cannot find user id(you shouldn't be here)"),
                },
            );
        },
    };
    match msg.content {
        MessageContent::Text { text } => text_message(store, cfg, user_id, text),
        MessageContent::Photo { file_ids } => {
            if file_ids.len() > 0 {
                let last = file_ids.len() - 1;
                let file_id = file_ids[last].clone();
                Ok(Action::FetchImage { file_id })
            } else {
                Ok(
                    Action::Reply {
                        chat_id: user_id,
                        text: String::from_str("something went wrong"),
                    },
                )
            }
        },
        MessageContent::Document { file_id, mime_type } => {
            let is_image = match &mime_type {
                Some(mime) => str_starts_with(mime.as_str(), "image/"),
                None => false,
            };
            if is_image {
                Ok(Action::FetchImage { file_id })
            } else {
                Ok(Action::Reply { chat_id: user_id, text: String::from_str("it's not image") })
            }
        },
        MessageContent::Sticker { file_id, set_name } => {
            let from_bot = match &set_name {
                Some(set) => str_ends_with(set.as_str(), cfg.bot_name.as_str()),
                None => false,
            };
            if from_bot {
                Ok(
                    Action::DeleteSticker {
                        file_id,
                        chat_id: user_id,
                        confirmation: String::from_str("sticker deleted"),
                    },
                )
            } else {
                Ok(Action::FetchImage { file_id })
            }
        },
        MessageContent::Other => Ok(
            Action::Reply { chat_id: user_id, text: String::from_str("something went wrong") },
        ),
    }
}

/// Dispatch one inbound update: an update without a message asks for nothing,
/// one with a message is dispatched as that message.
pub fn process(store: &mut Store, cfg: &BotConfig, update: Update) -> (r: Result<
    Action,
    StoreError,
>)
    ensures
        update.message is None ==> r == Ok::<Action, StoreError>(Action::Nothing)
            && session_bytes(final(store)) == session_bytes(old(store)) && pack_bytes(final(store))
            == pack_bytes(old(store)),
        match update.message {
            Some(m) => {
                &&& m.from != Some(cfg.user_id) ==> r is Ok && session_bytes(final(store))
                    == session_bytes(old(store)) && pack_bytes(final(store)) == pack_bytes(
                    old(store),
                )
                &&& m.from == Some(cfg.user_id) && !(m.content is Text) ==> r is Ok
            },
            None => true,
        },
        match (r, update.message) {
            (Ok(a), Some(m)) => message_outcome(
                session_bytes(old(store)),
                pack_bytes(old(store)),
                session_bytes(final(store)),
                pack_bytes(final(store)),
                a@,
                cfg.user_id,
                cfg.bot_name@,
                m,
            ),
            _ => true,
        },
{
    match update.message {
        Some(msg) => message_process(store, cfg, msg),
        None => Ok(Action::Nothing),
    }
}

} // verus!
