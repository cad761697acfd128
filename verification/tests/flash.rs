use daedalus::middleware::flash::{FlashInbox, FlashMailbox, SessionStore, StoreAction};
use daedalus::middleware::flash_messages::{
    Flash, FlashType, IncomingFlashMessages, Mailbox, SessionMessageStore, StoreAction as MessageStoreAction,
};
use daedalus::string_map::StringMap;

#[test]
fn flash_mailbox_counts_data() {
    let mut m = FlashMailbox::new();
    assert!(m.is_empty());
    m.add_data("email", "a@b.c".to_string());
    assert!(!m.is_empty());
    let store = SessionStore::default();
    assert_eq!(store.store_action(&m), StoreAction::Insert);
    assert_eq!(store.store_action(&FlashMailbox::default()), StoreAction::Remove);
}

#[test]
fn message_mailbox_ignores_data() {
    let mut m = Mailbox::new();
    m.add_data("email", "a@b.c".to_string());
    assert!(m.is_empty());
    let store = SessionMessageStore::default();
    assert_eq!(store.store_action(&m), MessageStoreAction::Remove);
    m.add_error("email", "Invalid".to_string());
    assert!(!m.is_empty());
    assert_eq!(store.store_action(&m), MessageStoreAction::Insert);
}

#[test]
fn recorded_flashes_reach_the_inbox() {
    let mut m = FlashMailbox::new();
    m.add_message("k", "first".to_string());
    m.add_message("k", "second".to_string());
    m.add_error("e", "err".to_string());
    let store = SessionStore::new("_custom".to_string());
    assert_eq!(store.key(), "_custom");
    let loaded = store.loaded(Some(m));
    let inbox = FlashInbox::from_mailbox(loaded);
    assert_eq!(inbox.messages().get("k").map(|s| s.as_str()), Some("second"));
    assert_eq!(inbox.messages().entries().len(), 1);
    assert_eq!(inbox.errors().get("e").map(|s| s.as_str()), Some("err"));
    assert!(inbox.data().is_empty());
}

#[test]
fn loading_nothing_gives_an_empty_mailbox() {
    let store = SessionMessageStore::new("_flash".to_string());
    let inbox = IncomingFlashMessages::from_mailbox(store.loaded(None));
    assert!(inbox.messages().is_empty() && inbox.errors().is_empty() && inbox.data().is_empty());
    assert_eq!(SessionStore::default().key(), "_flash");
}

#[test]
fn flash_message_content() {
    let f = Flash::new("k".to_string(), "hello".to_string(), FlashType::Error);
    assert_eq!(f.content(), "hello");
    assert_eq!(f.key(), "k");
    assert_eq!(f.flash_type(), FlashType::Error);
}

#[test]
fn mailbox_from_maps() {
    let mut a = StringMap::new();
    a.insert("x".to_string(), "1".to_string());
    let m = Mailbox::from_maps(a, StringMap::new(), StringMap::new());
    assert!(!m.is_empty());
    assert_eq!(m.messages().get("x").map(|s| s.as_str()), Some("1"));
}
