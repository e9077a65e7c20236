use sticker_bot::state_machine::{Pack, State};
use sticker_bot::store::Store;

fn binary_payload() -> Vec<u8> {
    let mut v = Vec::new();
    let mut i: usize = 0;
    while i < 300 {
        v.push((255 - (i % 256)) as u8);
        i += 1;
    }
    v
}

#[test]
fn set_then_get_returns_the_stored_session() {
    let mut store = Store::open_temporary().unwrap();
    let states = vec![
        State::Start(Pack::Existing),
        State::Sticker { pack: Pack::New, name: "n_by_bot".to_string(), file: binary_payload() },
        State::End {
            pack: Pack::New,
            title: Some("T".to_string()),
            emojis: "😀".to_string(),
            file: binary_payload(),
            name: "n_by_bot".to_string(),
            user_id: 5,
        },
    ];
    for (i, st) in states.into_iter().enumerate() {
        let user = i as i64;
        store.set_session(user, &st).unwrap();
        assert_eq!(store.get_session(user).unwrap(), Some(st));
    }
}

#[test]
fn get_of_an_unknown_user_is_absent() {
    let store = Store::open_temporary().unwrap();
    assert_eq!(store.get_session(1).unwrap(), None);
}

#[test]
fn set_overwrites_and_delete_removes() {
    let mut store = Store::open_temporary().unwrap();
    store.set_session(1, &State::Start(Pack::New)).unwrap();
    store.set_session(1, &State::Start(Pack::Existing)).unwrap();
    assert_eq!(store.get_session(1).unwrap(), Some(State::Start(Pack::Existing)));
    // Deletion reports the session that was stored.
    assert_eq!(store.delete_session(1).unwrap(), Some(State::Start(Pack::Existing)));
    assert_eq!(store.get_session(1).unwrap(), None);
    // Deleting an absent session is harmless and reports nothing.
    assert_eq!(store.delete_session(1).unwrap(), None);
    assert_eq!(store.get_session(1).unwrap(), None);
}

#[test]
fn sessions_of_different_users_are_independent() {
    let mut store = Store::open_temporary().unwrap();
    store.set_session(1, &State::Start(Pack::New)).unwrap();
    store.set_session(2, &State::Start(Pack::Existing)).unwrap();
    assert_eq!(store.delete_session(1).unwrap(), Some(State::Start(Pack::New)));
    assert_eq!(store.get_session(1).unwrap(), None);
    assert_eq!(store.get_session(2).unwrap(), Some(State::Start(Pack::Existing)));
}

#[test]
fn pack_index_of_an_unknown_user_is_empty() {
    let store = Store::open_temporary().unwrap();
    assert_eq!(store.get_pack_index(7).unwrap(), Vec::<String>::new());
}

#[test]
fn appends_all_survive_and_keep_order() {
    let mut store = Store::open_temporary().unwrap();
    let user = 3;
    let names = [
        "one_by_bot",
        "two_by_bot",
        "three_by_bot",
        "four_by_bot",
        "five_by_bot",
    ];
    for name in names {
        store.append_pack_name(user, name).unwrap();
    }
    let index = store.get_pack_index(user).unwrap();
    assert_eq!(index.len(), names.len());
    for (i, name) in names.iter().enumerate() {
        assert_eq!(index[i], *name);
    }
    // Appends never shrink the index, and duplicates are kept.
    store.append_pack_name(user, "one_by_bot").unwrap();
    assert_eq!(store.get_pack_index(user).unwrap().len(), names.len() + 1);
}

#[test]
fn appends_do_not_touch_sessions_and_sets_do_not_touch_the_index() {
    let mut store = Store::open_temporary().unwrap();
    store.set_session(1, &State::Start(Pack::New)).unwrap();
    store.append_pack_name(1, "p_by_bot").unwrap();
    assert_eq!(store.get_session(1).unwrap(), Some(State::Start(Pack::New)));
    store.set_session(1, &State::Start(Pack::Existing)).unwrap();
    assert_eq!(store.get_pack_index(1).unwrap(), vec!["p_by_bot".to_string()]);
}
