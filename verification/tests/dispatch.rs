use sticker_bot::dispatch::{
    handle_image, message_process, process, publish_succeeded, text_message, Action, BotConfig,
    IncomingMessage, MessageContent, PublishRequest, Update,
};
use sticker_bot::state_machine::{Pack, State};
use sticker_bot::store::Store;

const OWNER: i64 = 42;

fn cfg() -> BotConfig {
    BotConfig { user_id: OWNER, bot_name: "testbot".to_string() }
}

fn reply(chat_id: i64, text: &str) -> Action {
    Action::Reply { chat_id, text: text.to_string() }
}

fn send_text(store: &mut Store, text: &str) -> Action {
    text_message(store, &cfg(), OWNER, text.to_string()).unwrap()
}

fn image() -> Vec<u8> {
    vec![137, 80, 78, 71, 0, 255, 1, 2]
}

#[test]
fn new_pack_conversation_publishes_and_records_the_pack() {
    let mut store = Store::open_temporary().unwrap();
    assert_eq!(send_text(&mut store, "/new_pack"), reply(OWNER, "Send name: "));
    assert_eq!(send_text(&mut store, "x"), reply(OWNER, "Send photo or sticker: "));
    assert_eq!(
        handle_image(&mut store, OWNER, image()).unwrap(),
        reply(OWNER, "Send emoji: ")
    );
    assert_eq!(send_text(&mut store, "😀"), reply(OWNER, "Send title: "));
    assert_eq!(send_text(&mut store, "T"), reply(OWNER, "Send /publish"));
    let action = send_text(&mut store, "/publish");
    let expected = PublishRequest {
        user_id: OWNER,
        name: "x_by_testbot".to_string(),
        emojis: "😀".to_string(),
        file: image(),
        title: Some("T".to_string()),
        url: "https://t.me/addstickers/x_by_testbot".to_string(),
        pack: Pack::New,
    };
    let request = match action {
        Action::Publish { request } => request,
        other => panic!("expected a publish action, got {:?}", other),
    };
    assert_eq!(request, expected);
    publish_succeeded(&mut store, &request).unwrap();
    assert_eq!(store.get_session(OWNER).unwrap(), None);
    assert_eq!(store.get_pack_index(OWNER).unwrap(), vec!["x_by_testbot".to_string()]);
}

#[test]
fn existing_pack_conversation_publishes_without_touching_the_index() {
    let mut store = Store::open_temporary().unwrap();
    store.append_pack_name(OWNER, "old_by_testbot").unwrap();
    let action = send_text(&mut store, "/add_to_pack");
    assert_eq!(
        action,
        Action::ReplyWithChoices {
            chat_id: OWNER,
            text: "choose your pack".to_string(),
            choices: vec!["old_by_testbot".to_string()],
        }
    );
    assert_eq!(send_text(&mut store, "y"), reply(OWNER, "Send photo or sticker: "));
    assert_eq!(
        handle_image(&mut store, OWNER, image()).unwrap(),
        reply(OWNER, "Send emoji: ")
    );
    // Emojis must be supplied before the confirmation; extending a pack asks
    // for no title.
    assert_eq!(send_text(&mut store, "🎉"), reply(OWNER, "Send /publish"));
    let action = send_text(&mut store, "/publish");
    let request = match action {
        Action::Publish { request } => request,
        other => panic!("expected a publish action, got {:?}", other),
    };
    assert_eq!(request.title, None);
    assert_eq!(request.pack, Pack::Existing);
    assert_eq!(request.name, "y_by_testbot".to_string());
    publish_succeeded(&mut store, &request).unwrap();
    assert_eq!(store.get_session(OWNER).unwrap(), None);
    // The index still holds only the pack registered before.
    assert_eq!(store.get_pack_index(OWNER).unwrap(), vec!["old_by_testbot".to_string()]);
}

#[test]
fn publish_while_awaiting_sticker_changes_nothing() {
    let mut store = Store::open_temporary().unwrap();
    send_text(&mut store, "/new_pack");
    send_text(&mut store, "x");
    let before = store.get_session(OWNER).unwrap();
    assert_eq!(
        before,
        Some(State::Name { pack: Pack::New, name: "x_by_testbot".to_string() })
    );
    assert_eq!(send_text(&mut store, "/publish"), reply(OWNER, "cannot publish yet"));
    assert_eq!(store.get_session(OWNER).unwrap(), before);
    // Repeating it is idempotent.
    assert_eq!(send_text(&mut store, "/publish"), reply(OWNER, "cannot publish yet"));
    assert_eq!(store.get_session(OWNER).unwrap(), before);
}

#[test]
fn publish_with_no_session_cannot_publish() {
    let mut store = Store::open_temporary().unwrap();
    assert_eq!(send_text(&mut store, "/publish"), reply(OWNER, "cannot publish yet"));
    assert_eq!(store.get_session(OWNER).unwrap(), None);
}

#[test]
fn failed_publish_leaves_the_session_for_a_retry() {
    let mut store = Store::open_temporary().unwrap();
    send_text(&mut store, "/new_pack");
    send_text(&mut store, "x");
    handle_image(&mut store, OWNER, image()).unwrap();
    send_text(&mut store, "😀");
    send_text(&mut store, "T");
    let before = store.get_session(OWNER).unwrap();
    let first = send_text(&mut store, "/publish");
    assert!(matches!(first, Action::Publish { .. }));
    // The publish call failed: `publish_succeeded` is never reached, and the
    // session is exactly as it was before the attempt.
    assert_eq!(store.get_session(OWNER).unwrap(), before);
    // A retry produces the same request again.
    let second = send_text(&mut store, "/publish");
    assert_eq!(first, second);
}

#[test]
fn title_confirmation_is_mandatory_for_new_packs() {
    let mut store = Store::open_temporary().unwrap();
    send_text(&mut store, "/new_pack");
    send_text(&mut store, "x");
    handle_image(&mut store, OWNER, image()).unwrap();
    send_text(&mut store, "😀");
    // No title yet: the confirmation matches no table row.
    assert_eq!(send_text(&mut store, "/publish"), reply(OWNER, "cannot publish yet"));
    assert_eq!(
        store.get_session(OWNER).unwrap(),
        Some(State::Emojis {
            pack: Pack::New,
            name: "x_by_testbot".to_string(),
            emojis: "😀".to_string(),
            file: image(),
        })
    );
}

#[test]
fn start_command_resets_an_in_flight_session() {
    let mut store = Store::open_temporary().unwrap();
    send_text(&mut store, "/new_pack");
    send_text(&mut store, "x");
    assert_eq!(send_text(&mut store, "/new_pack"), reply(OWNER, "Send name: "));
    assert_eq!(store.get_session(OWNER).unwrap(), Some(State::Start(Pack::New)));
}

#[test]
fn echo_when_no_session_exists() {
    let mut store = Store::open_temporary().unwrap();
    assert_eq!(send_text(&mut store, "hello there"), reply(OWNER, "hello there"));
    assert_eq!(store.get_session(OWNER).unwrap(), None);
}

#[test]
fn text_while_awaiting_an_image_repeats_the_prompt() {
    let mut store = Store::open_temporary().unwrap();
    send_text(&mut store, "/new_pack");
    send_text(&mut store, "x");
    assert_eq!(send_text(&mut store, "bla"), reply(OWNER, "Send photo or sticker: "));
    assert_eq!(
        store.get_session(OWNER).unwrap(),
        Some(State::Name { pack: Pack::New, name: "x_by_testbot".to_string() })
    );
}

#[test]
fn image_outside_awaiting_sticker_is_not_expected() {
    let mut store = Store::open_temporary().unwrap();
    assert_eq!(
        handle_image(&mut store, OWNER, image()).unwrap(),
        reply(OWNER, "not expected now")
    );
    assert_eq!(store.get_session(OWNER).unwrap(), None);
    send_text(&mut store, "/new_pack");
    assert_eq!(
        handle_image(&mut store, OWNER, image()).unwrap(),
        reply(OWNER, "not expected now")
    );
    assert_eq!(store.get_session(OWNER).unwrap(), Some(State::Start(Pack::New)));
}

#[test]
fn register_command_appends_matching_names_only() {
    let mut store = Store::open_temporary().unwrap();
    assert_eq!(
        send_text(&mut store, "/add_sticker_pack mine_by_testbot extra"),
        reply(OWNER, "added to user sticker packs mine_by_testbot")
    );
    assert_eq!(store.get_pack_index(OWNER).unwrap(), vec!["mine_by_testbot".to_string()]);
    // A name without the bot's suffix is refused.
    assert_eq!(
        send_text(&mut store, "/add_sticker_pack someone_elses"),
        reply(OWNER, "name not found")
    );
    // No name at all is refused; the bare command is its own first token.
    assert_eq!(send_text(&mut store, "/add_sticker_pack"), reply(OWNER, "name not found"));
    assert_eq!(store.get_pack_index(OWNER).unwrap(), vec!["mine_by_testbot".to_string()]);
}

#[test]
fn register_command_skips_repeated_prefixes_and_extra_whitespace() {
    let mut store = Store::open_temporary().unwrap();
    assert_eq!(
        send_text(
            &mut store,
            "/add_sticker_pack /add_sticker_pack \t  spaced_by_testbot trailing"
        ),
        reply(OWNER, "added to user sticker packs spaced_by_testbot")
    );
    assert_eq!(store.get_pack_index(OWNER).unwrap(), vec!["spaced_by_testbot".to_string()]);
}

#[test]
fn unauthorized_senders_are_turned_away_without_any_store_access() {
    let mut store = Store::open_temporary().unwrap();
    let msg = IncomingMessage {
        from: Some(7),
        chat_id: 7,
        content: MessageContent::Text { text: "/new_pack".to_string() },
    };
    assert_eq!(
        message_process(&mut store, &cfg(), msg).unwrap(),
        reply(7, "sorry bot is not working for you")
    );
    assert_eq!(store.get_session(7).unwrap(), None);
    let msg = IncomingMessage {
        from: None,
        chat_id: 99,
        content: MessageContent::Text { text: "/new_pack".to_string() },
    };
    assert_eq!(
        message_process(&mut store, &cfg(), msg).unwrap(),
        reply(99, "cannot find user id(you shouldn't be here)")
    );
}

#[test]
fn photos_fetch_the_largest_size() {
    let mut store = Store::open_temporary().unwrap();
    let msg = IncomingMessage {
        from: Some(OWNER),
        chat_id: OWNER,
        content: MessageContent::Photo {
            file_ids: vec!["small".to_string(), "large".to_string()],
        },
    };
    assert_eq!(
        message_process(&mut store, &cfg(), msg).unwrap(),
        Action::FetchImage { file_id: "large".to_string() }
    );
    let msg = IncomingMessage {
        from: Some(OWNER),
        chat_id: OWNER,
        content: MessageContent::Photo { file_ids: vec![] },
    };
    assert_eq!(
        message_process(&mut store, &cfg(), msg).unwrap(),
        reply(OWNER, "something went wrong")
    );
}

#[test]
fn documents_fetch_only_when_they_carry_an_image() {
    let mut store = Store::open_temporary().unwrap();
    let msg = IncomingMessage {
        from: Some(OWNER),
        chat_id: OWNER,
        content: MessageContent::Document {
            file_id: "doc1".to_string(),
            mime_type: Some("image/png".to_string()),
        },
    };
    assert_eq!(
        message_process(&mut store, &cfg(), msg).unwrap(),
        Action::FetchImage { file_id: "doc1".to_string() }
    );
    let msg = IncomingMessage {
        from: Some(OWNER),
        chat_id: OWNER,
        content: MessageContent::Document {
            file_id: "doc2".to_string(),
            mime_type: Some("application/pdf".to_string()),
        },
    };
    assert_eq!(message_process(&mut store, &cfg(), msg).unwrap(), reply(OWNER, "it's not image"));
    let msg = IncomingMessage {
        from: Some(OWNER),
        chat_id: OWNER,
        content: MessageContent::Document { file_id: "doc3".to_string(), mime_type: None },
    };
    assert_eq!(message_process(&mut store, &cfg(), msg).unwrap(), reply(OWNER, "it's not image"));
}

#[test]
fn own_stickers_are_deleted_and_foreign_ones_fetched() {
    let mut store = Store::open_temporary().unwrap();
    let msg = IncomingMessage {
        from: Some(OWNER),
        chat_id: OWNER,
        content: MessageContent::Sticker {
            file_id: "st1".to_string(),
            set_name: Some("pack_by_testbot".to_string()),
        },
    };
    assert_eq!(
        message_process(&mut store, &cfg(), msg).unwrap(),
        Action::DeleteSticker {
            file_id: "st1".to_string(),
            chat_id: OWNER,
            confirmation: "sticker deleted".to_string(),
        }
    );
    let msg = IncomingMessage {
        from: Some(OWNER),
        chat_id: OWNER,
        content: MessageContent::Sticker {
            file_id: "st2".to_string(),
            set_name: Some("someone_else".to_string()),
        },
    };
    assert_eq!(
        message_process(&mut store, &cfg(), msg).unwrap(),
        Action::FetchImage { file_id: "st2".to_string() }
    );
}

#[test]
fn updates_without_a_message_do_nothing() {
    let mut store = Store::open_temporary().unwrap();
    assert_eq!(
        process(&mut store, &cfg(), Update { message: None }).unwrap(),
        Action::Nothing
    );
    let msg = IncomingMessage {
        from: Some(OWNER),
        chat_id: OWNER,
        content: MessageContent::Other,
    };
    assert_eq!(
        process(&mut store, &cfg(), Update { message: Some(msg) }).unwrap(),
        reply(OWNER, "something went wrong")
    );
}
