use sticker_bot::state_machine::{Event, Pack, State};

fn image() -> Vec<u8> {
    vec![0u8, 255, 13, 10, 128, 7]
}

#[test]
fn new_pack_path_reaches_end_with_title() {
    let st = State::new(Pack::New);
    assert_eq!(st, State::Start(Pack::New));
    let st = st.next(Event::AddName { name: "x".to_string() });
    assert_eq!(st, State::Name { pack: Pack::New, name: "x".to_string() });
    let st = st.next(Event::AddSticker { file: image() });
    assert_eq!(st, State::Sticker { pack: Pack::New, name: "x".to_string(), file: image() });
    let st = st.next(Event::AddEmojis { emojis: "😀".to_string() });
    assert_eq!(
        st,
        State::Emojis {
            pack: Pack::New,
            name: "x".to_string(),
            emojis: "😀".to_string(),
            file: image(),
        }
    );
    let st = st.next(Event::AddTitle { title: "T".to_string() });
    assert_eq!(
        st,
        State::Title {
            pack: Pack::New,
            name: "x".to_string(),
            title: "T".to_string(),
            emojis: "😀".to_string(),
            file: image(),
        }
    );
    let st = st.next(Event::AddUserId { user_id: 7 });
    assert!(st.is_publishable());
    assert_eq!(
        st,
        State::End {
            pack: Pack::New,
            title: Some("T".to_string()),
            emojis: "😀".to_string(),
            file: image(),
            name: "x".to_string(),
            user_id: 7,
        }
    );
}

#[test]
fn existing_pack_path_reaches_end_without_title() {
    let st = State::new(Pack::Existing);
    let st = st.next(Event::AddName { name: "y".to_string() });
    let st = st.next(Event::AddSticker { file: image() });
    let st = st.next(Event::AddEmojis { emojis: "🎉".to_string() });
    // An existing pack needs no title: confirmation alone reaches the end.
    let st = st.next(Event::AddUserId { user_id: 9 });
    assert!(st.is_publishable());
    assert_eq!(
        st,
        State::End {
            pack: Pack::Existing,
            title: None,
            emojis: "🎉".to_string(),
            file: image(),
            name: "y".to_string(),
            user_id: 9,
        }
    );
}

#[test]
fn existing_pack_ignores_title_and_needs_emojis_before_confirm() {
    // A title offered while extending an existing pack matches no table row.
    let st = State::Emojis {
        pack: Pack::Existing,
        name: "y".to_string(),
        emojis: "🎉".to_string(),
        file: image(),
    };
    let st2 = st.next(Event::AddTitle { title: "T".to_string() });
    assert_eq!(
        st2,
        State::Emojis {
            pack: Pack::Existing,
            name: "y".to_string(),
            emojis: "🎉".to_string(),
            file: image(),
        }
    );
    // Confirming before the emojis arrive matches no table row either.
    let st = State::Sticker { pack: Pack::Existing, name: "y".to_string(), file: image() };
    let st2 = st.next(Event::AddUserId { user_id: 9 });
    assert_eq!(
        st2,
        State::Sticker { pack: Pack::Existing, name: "y".to_string(), file: image() }
    );
}

#[test]
fn unmatched_pairs_leave_state_unchanged() {
    let st = State::Start(Pack::New);
    assert_eq!(st.next(Event::AddEmojis { emojis: "😀".to_string() }), State::Start(Pack::New));
    let st = State::Start(Pack::New);
    assert_eq!(st.next(Event::DoNothing), State::Start(Pack::New));
    let st = State::Name { pack: Pack::New, name: "x".to_string() };
    assert_eq!(
        st.next(Event::AddName { name: "z".to_string() }),
        State::Name { pack: Pack::New, name: "x".to_string() }
    );
    // A new pack's confirmation without a title matches no row.
    let st = State::Emojis {
        pack: Pack::New,
        name: "x".to_string(),
        emojis: "😀".to_string(),
        file: image(),
    };
    assert_eq!(
        st.next(Event::AddUserId { user_id: 7 }),
        State::Emojis {
            pack: Pack::New,
            name: "x".to_string(),
            emojis: "😀".to_string(),
            file: image(),
        }
    );
}

#[test]
fn publishable_only_at_end() {
    assert!(!State::Start(Pack::New).is_publishable());
    assert!(!State::Name { pack: Pack::New, name: "x".to_string() }.is_publishable());
    assert!(
        !State::Sticker { pack: Pack::New, name: "x".to_string(), file: image() }.is_publishable()
    );
    assert!(!State::Emojis {
        pack: Pack::Existing,
        name: "x".to_string(),
        emojis: "e".to_string(),
        file: image(),
    }
    .is_publishable());
    assert!(!State::Title {
        pack: Pack::New,
        name: "x".to_string(),
        title: "T".to_string(),
        emojis: "e".to_string(),
        file: image(),
    }
    .is_publishable());
    assert!(State::End {
        pack: Pack::New,
        title: Some("T".to_string()),
        emojis: "e".to_string(),
        file: image(),
        name: "x".to_string(),
        user_id: 1,
    }
    .is_publishable());
}

#[test]
fn prompts_follow_the_state() {
    assert_eq!(State::Start(Pack::New).prompt(), "Send name: ");
    assert_eq!(
        State::Name { pack: Pack::New, name: "x".to_string() }.prompt(),
        "Send photo or sticker: "
    );
    assert_eq!(
        State::Sticker { pack: Pack::New, name: "x".to_string(), file: vec![] }.prompt(),
        "Send emoji: "
    );
    assert_eq!(
        State::Emojis {
            pack: Pack::New,
            name: "x".to_string(),
            emojis: "e".to_string(),
            file: vec![],
        }
        .prompt(),
        "Send title: "
    );
    assert_eq!(
        State::Emojis {
            pack: Pack::Existing,
            name: "x".to_string(),
            emojis: "e".to_string(),
            file: vec![],
        }
        .prompt(),
        "Send /publish"
    );
    assert_eq!(
        State::Title {
            pack: Pack::New,
            name: "x".to_string(),
            title: "T".to_string(),
            emojis: "e".to_string(),
            file: vec![],
        }
        .prompt(),
        "Send /publish"
    );
}

#[test]
fn from_command_accepts_exactly_the_two_commands() {
    assert_eq!(Pack::from_command("/new_pack"), Ok(Pack::New));
    assert_eq!(Pack::from_command("/add_to_pack"), Ok(Pack::Existing));
    assert_eq!(
        Pack::from_command("/new_pack x"),
        Err("only new_pack and add_to_pack is allowed")
    );
    assert_eq!(Pack::from_command(""), Err("only new_pack and add_to_pack is allowed"));
}
