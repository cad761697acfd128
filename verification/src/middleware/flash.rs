//! Flash messages kept in the session from one response to the next request.
use vstd::prelude::*;

use crate::string_map::StringMap;

verus! {

/// The contents of a mailbox: its messages, its errors and its data, each by key.
pub type MailboxView = (Map<Seq<char>, Seq<char>>, Map<Seq<char>, Seq<char>>, Map<Seq<char>, Seq<char>>);

/// `v` with the message `c` recorded under `k`.
pub open spec fn with_message(v: MailboxView, k: Seq<char>, c: Seq<char>) -> MailboxView {
    (v.0.insert(k, c), v.1, v.2)
}

/// `v` with the error `c` recorded under `k`.
pub open spec fn with_error(v: MailboxView, k: Seq<char>, c: Seq<char>) -> MailboxView {
    (v.0, v.1.insert(k, c), v.2)
}

/// `v` with the datum `c` recorded under `k`.
pub open spec fn with_data(v: MailboxView, k: Seq<char>, c: Seq<char>) -> MailboxView {
    (v.0, v.1, v.2.insert(k, c))
}

/// Whether a mailbox counts as empty: it holds no message, no error and no data.
pub open spec fn mailbox_empty(v: MailboxView) -> bool {
    v.0 == Map::<Seq<char>, Seq<char>>::empty() && v.1 == Map::<Seq<char>, Seq<char>>::empty() && v.2 == Map::<Seq<char>, Seq<char>>::empty()
}

/// What storing a mailbox with contents `v` does to the session.
pub open spec fn stored_action(v: MailboxView) -> StoreAction {
    if mailbox_empty(v) {
        StoreAction::Remove
    } else {
        StoreAction::Insert
    }
}

/// The flash messages, errors and data of one request, each map from key to text.
#[derive(Clone, Debug)]
pub struct FlashMailbox {
    messages: StringMap,
    errors: StringMap,
    data: StringMap,
}

impl View for FlashMailbox {
    /// The messages, the errors and the data.
    type V = (Map<Seq<char>, Seq<char>>, Map<Seq<char>, Seq<char>>, Map<Seq<char>, Seq<char>>);

    closed spec fn view(&self) -> Self::V {
        (self.messages@, self.errors@, self.data@)
    }
}

impl FlashMailbox {
    /// An empty mailbox.
    pub fn new() -> (m: FlashMailbox)
        ensures
            m@.0 == Map::<Seq<char>, Seq<char>>::empty(),
            m@.1 == Map::<Seq<char>, Seq<char>>::empty(),
            m@.2 == Map::<Seq<char>, Seq<char>>::empty(),
    {
        FlashMailbox { messages: StringMap::new(), errors: StringMap::new(), data: StringMap::new() }
    }

    /// A mailbox with the given messages, errors and data.
    pub fn from_maps(messages: StringMap, errors: StringMap, data: StringMap) -> (m: FlashMailbox)
        ensures
            m@ == (messages@, errors@, data@),
    {
        FlashMailbox { messages, errors, data }
    }

    /// Whether the mailbox holds no message, no error and no data.
    pub fn is_empty(&self) -> (r: bool)
        ensures
            r == mailbox_empty(self@),
    {
        self.messages.is_empty() && self.errors.is_empty() && self.data.is_empty()
    }

    /// Records a message under `key`, in place of any recorded there before.
    pub fn add_message(&mut self, key: &str, content: String)
        ensures
            final(self)@ == with_message(old(self)@, key@, content@),
    {
        self.messages.insert(String::from_str(key), content);
    }

    /// Records an error under `key`, in place of any recorded there before.
    pub fn add_error(&mut self, key: &str, content: String)
        ensures
            final(self)@ == with_error(old(self)@, key@, content@),
    {
        self.errors.insert(String::from_str(key), content);
    }

    /// Records a datum under `key`, in place of any recorded there before.
    pub fn add_data(&mut self, key: &str, content: String)
        ensures
            final(self)@ == with_data(old(self)@, key@, content@),
    {
        self.data.insert(String::from_str(key), content);
    }

    /// The messages.
    pub fn messages(&self) -> (r: &StringMap)
        ensures
            r@ == self@.0,
    {
        &self.messages
    }

    /// The errors.
    pub fn errors(&self) -> (r: &StringMap)
        ensures
            r@ == self@.1,
    {
        &self.errors
    }

    /// The data.
    pub fn data(&self) -> (r: &StringMap)
        ensures
            r@ == self@.2,
    {
        &self.data
    }
}

impl Default for FlashMailbox {
    fn default() -> (m: FlashMailbox)
        ensures
            m@.0 == Map::<Seq<char>, Seq<char>>::empty(),
            m@.1 == Map::<Seq<char>, Seq<char>>::empty(),
            m@.2 == Map::<Seq<char>, Seq<char>>::empty(),
    {
        FlashMailbox::new()
    }
}

/// The flash messages, errors and data that the previous response left for this request.
pub struct FlashInbox {
    messages: StringMap,
    errors: StringMap,
    data: StringMap,
}

impl FlashInbox {
    /// The contents of a loaded mailbox.
    pub fn from_mailbox(mailbox: FlashMailbox) -> (r: FlashInbox)
        ensures
            r.messages_view() == mailbox@.0,
            r.errors_view() == mailbox@.1,
            r.data_view() == mailbox@.2,
    {
        FlashInbox { messages: mailbox.messages, errors: mailbox.errors, data: mailbox.data }
    }

    /// The messages, by key.
    pub closed spec fn messages_view(&self) -> Map<Seq<char>, Seq<char>> {
        self.messages@
    }

    /// The messages.
    pub fn messages(&self) -> (r: &StringMap)
        ensures
            r@ == self.messages_view(),
    {
        &self.messages
    }

    /// The errors, by key.
    pub closed spec fn errors_view(&self) -> Map<Seq<char>, Seq<char>> {
        self.errors@
    }

    /// The errors.
    pub fn errors(&self) -> (r: &StringMap)
        ensures
            r@ == self.errors_view(),
    {
        &self.errors
    }

    /// The data, by key.
    pub closed spec fn data_view(&self) -> Map<Seq<char>, Seq<char>> {
        self.data@
    }

    /// The data.
    pub fn data(&self) -> (r: &StringMap)
        ensures
            r@ == self.data_view(),
    {
        &self.data
    }
}

/// What storing a mailbox does to the session.
#[derive(Clone, Copy, Debug, PartialEq, Eq, Structural)]
pub enum StoreAction {
    /// Remove the mailbox kept under the store's key, so that no old message is shown again.
    Remove,
    /// Keep the mailbox under the store's key, in place of any kept there before.
    Insert,
}

/// Keeps the mailbox in the session, under a key.
#[derive(Clone, Debug)]
pub struct SessionStore {
    key: String,
}

impl SessionStore {
    /// A store that keeps the mailbox under `key`.
    pub fn new(key: String) -> (s: SessionStore)
        ensures
            s.key_view() == key@,
    {
        SessionStore { key }
    }

    /// The key under which the mailbox is kept.
    pub closed spec fn key_view(&self) -> Seq<char> {
        self.key@
    }

    /// The key under which the mailbox is kept.
    pub fn key(&self) -> (k: &String)
        ensures
            k@ == self.key_view(),
    {
        &self.key
    }

    /// The mailbox that loading gives: the one found in the session, else an empty one.
    pub fn loaded(&self, found: Option<FlashMailbox>) -> (m: FlashMailbox)
        ensures
            match found {
                Some(f) => m@ == f@,
                None => m@.0 == Map::<Seq<char>, Seq<char>>::empty() && m@.1 == Map::<
                    Seq<char>,
                    Seq<char>,
                >::empty() && m@.2 == Map::<Seq<char>, Seq<char>>::empty(),
            },
    {
        match found {
            Some(f) => f,
            None => FlashMailbox::new(),
        }
    }

    /// What storing `mailbox` does: an empty mailbox removes the stored one, any other
    /// replaces it.
    pub fn store_action(&self, mailbox: &FlashMailbox) -> (a: StoreAction)
        ensures
            a == stored_action(mailbox@),
    {
        if mailbox.is_empty() {
            StoreAction::Remove
        } else {
            StoreAction::Insert
        }
    }
}

impl Default for SessionStore {
    fn default() -> (s: SessionStore)
        ensures
            s.key_view() == "_flash"@,
    {
        SessionStore { key: String::from_str("_flash") }
    }
}

/// The name under which flash messages are recorded. It holds nothing: a request's
/// mailbox records them through `FlashMailbox::add_message`, `add_error` and `add_data`.
pub struct Flash;


/// A mailbox in which `add_message` or `add_error` recorded something is kept in the
/// session by the next store: `store_action` on it answers `Insert`, whatever else the
/// mailbox holds.
pub proof fn law_recorded_flash_is_kept(v: MailboxView, key: Seq<char>, content: Seq<char>)
    ensures
        stored_action(with_message(v, key, content)) == StoreAction::Insert,
        stored_action(with_error(v, key, content)) == StoreAction::Insert,
{
    assert(with_message(v, key, content).0.contains_key(key));
    assert(with_error(v, key, content).1.contains_key(key));
}

/// Data that `add_data` recorded keeps the mailbox too: this mailbox counts its data.
pub proof fn law_recorded_data_is_kept(v: MailboxView, key: Seq<char>, content: Seq<char>)
    ensures
        stored_action(with_data(v, key, content)) == StoreAction::Insert,
{
    assert(with_data(v, key, content).2.contains_key(key));
}

} // verus!
