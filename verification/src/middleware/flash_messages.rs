//! Flash messages kept in the session, where a mailbox that holds only data counts as empty.
use vstd::prelude::*;

use crate::string_map::StringMap;

verus! {

/// The contents of a mailbox: its messages, its errors and its data, each by key.
pub type MailboxView = (Map<Seq<char>, Seq<char>>, Map<Seq<char>, Seq<char>>, Map<Seq<char>, Seq<char>>);

/// `v` with the message `c` recorded under `k`.
pub open spec fn with_message(v: MailboxView, k: Seq<char>, c: Seq<char>) -> MailboxView {
    (v.0.insert(k, c), v.1, v.2)
}

/// `v` with the error `c` recorded under `k`.
pub open spec fn with_error(v: MailboxView, k: Seq<char>, c: Seq<char>) -> MailboxView {
    (v.0, v.1.insert(k, c), v.2)
}

/// `v` with the datum `c` recorded under `k`.
pub open spec fn with_data(v: MailboxView, k: Seq<char>, c: Seq<char>) -> MailboxView {
    (v.0, v.1, v.2.insert(k, c))
}

/// Whether a mailbox counts as empty: it holds no message and no error, whatever data it holds.
pub open spec fn mailbox_empty(v: MailboxView) -> bool {
    v.0 == Map::<Seq<char>, Seq<char>>::empty() && v.1 == Map::<Seq<char>, Seq<char>>::empty()
}

/// What storing a mailbox with contents `v` does to the session.
pub open spec fn stored_action(v: MailboxView) -> StoreAction {
    if mailbox_empty(v) {
        StoreAction::Remove
    } else {
        StoreAction::Insert
    }
}

/// The flash messages, errors and data of one request, each map from key to text.
#[derive(Clone, Debug)]
pub struct Mailbox {
    messages: StringMap,
    errors: StringMap,
    data: StringMap,
}

impl View for Mailbox {
    /// The messages, the errors and the data.
    type V = (Map<Seq<char>, Seq<char>>, Map<Seq<char>, Seq<char>>, Map<Seq<char>, Seq<char>>);

    closed spec fn view(&self) -> Self::V {
        (self.messages@, self.errors@, self.data@)
    }
}

impl Mailbox {
    /// An empty mailbox.
    pub fn new() -> (m: Mailbox)
        ensures
            m@.0 == Map::<Seq<char>, Seq<char>>::empty(),
            m@.1 == Map::<Seq<char>, Seq<char>>::empty(),
            m@.2 == Map::<Seq<char>, Seq<char>>::empty(),
    {
        Mailbox { messages: StringMap::new(), errors: StringMap::new(), data: StringMap::new() }
    }

    /// A mailbox with the given messages, errors and data.
    pub fn from_maps(messages: StringMap, errors: StringMap, data: StringMap) -> (m: Mailbox)
        ensures
            m@ == (messages@, errors@, data@),
    {
        Mailbox { messages, errors, data }
    }

    /// Whether the mailbox holds no message and no error; data alone leaves it empty.
    pub fn is_empty(&self) -> (r: bool)
        ensures
            r == mailbox_empty(self@),
    {
        self.messages.is_empty() && self.errors.is_empty()
    }

    /// Records a message under `key`, in place of any recorded there before.
    pub fn add_message(&mut self, key: &str, content: String)
        ensures
            final(self)@ == with_message(old(self)@, key@, content@),
    {
        self.messages.insert(String::from_str(key), content);
    }

    /// Records an error under `key`, in place of any recorded there before.
    pub fn add_error(&mut self, key: &str, content: String)
        ensures
            final(self)@ == with_error(old(self)@, key@, content@),
    {
        self.errors.insert(String::from_str(key), content);
    }

    /// Records a datum under `key`, in place of any recorded there before.
    pub fn add_data(&mut self, key: &str, content: String)
        ensures
            final(self)@ == with_data(old(self)@, key@, content@),
    {
        self.data.insert(String::from_str(key), content);
    }

    /// The messages.
    pub fn messages(&self) -> (r: &StringMap)
        ensures
            r@ == self@.0,
    {
        &self.messages
    }

    /// The errors.
    pub fn errors(&self) -> (r: &StringMap)
        ensures
            r@ == self@.1,
    {
        &self.errors
    }

    /// The data.
    pub fn data(&self) -> (r: &StringMap)
        ensures
            r@ == self@.2,
    {
        &self.data
    }
}

impl Default for Mailbox {
    fn default() -> (m: Mailbox)
        ensures
            m@.0 == Map::<Seq<char>, Seq<char>>::empty(),
            m@.1 == Map::<Seq<char>, Seq<char>>::empty(),
            m@.2 == Map::<Seq<char>, Seq<char>>::empty(),
    {
        Mailbox::new()
    }
}

/// The flash messages, errors and data that the previous response left for this request.
pub struct IncomingFlashMessages {
    messages: StringMap,
    errors: StringMap,
    data: StringMap,
}

impl IncomingFlashMessages {
    /// The contents of a loaded mailbox.
    pub fn from_mailbox(mailbox: Mailbox) -> (r: IncomingFlashMessages)
        ensures
            r.messages_view() == mailbox@.0,
            r.errors_view() == mailbox@.1,
            r.data_view() == mailbox@.2,
    {
        IncomingFlashMessages { messages: mailbox.messages, errors: mailbox.errors, data: mailbox.data }
    }

    /// The messages, by key.
    pub closed spec fn messages_view(&self) -> Map<Seq<char>, Seq<char>> {
        self.messages@
    }

    /// The messages.
    pub fn messages(&self) -> (r: &StringMap)
        ensures
            r@ == self.messages_view(),
    {
        &self.messages
    }

    /// The errors, by key.
    pub closed spec fn errors_view(&self) -> Map<Seq<char>, Seq<char>> {
        self.errors@
    }

    /// The errors.
    pub fn errors(&self) -> (r: &StringMap)
        ensures
            r@ == self.errors_view(),
    {
        &self.errors
    }

    /// The data, by key.
    pub closed spec fn data_view(&self) -> Map<Seq<char>, Seq<char>> {
        self.data@
    }

    /// The data.
    pub fn data(&self) -> (r: &StringMap)
        ensures
            r@ == self.data_view(),
    {
        &self.data
    }
}

/// What storing a mailbox does to the session.
#[derive(Clone, Copy, Debug, PartialEq, Eq, Structural)]
pub enum StoreAction {
    /// Remove the mailbox kept under the store's key, so that no old message is shown again.
    Remove,
    /// Keep the mailbox under the store's key, in place of any kept there before.
    Insert,
}

/// Keeps the mailbox in the session, under a key.
#[derive(Clone, Debug)]
pub struct SessionMessageStore {
    key: String,
}

impl SessionMessageStore {
    /// A store that keeps the mailbox under `key`.
    pub fn new(key: String) -> (s: SessionMessageStore)
        ensures
            s.key_view() == key@,
    {
        SessionMessageStore { key }
    }

    /// The key under which the mailbox is kept.
    pub closed spec fn key_view(&self) -> Seq<char> {
        self.key@
    }

    /// The key under which the mailbox is kept.
    pub fn key(&self) -> (k: &String)
        ensures
            k@ == self.key_view(),
    {
        &self.key
    }

    /// The mailbox that loading gives: the one found in the session, else an empty one.
    pub fn loaded(&self, found: Option<Mailbox>) -> (m: Mailbox)
        ensures
            match found {
                Some(f) => m@ == f@,
                None => m@.0 == Map::<Seq<char>, Seq<char>>::empty() && m@.1 == Map::<
                    Seq<char>,
                    Seq<char>,
                >::empty() && m@.2 == Map::<Seq<char>, Seq<char>>::empty(),
            },
    {
        match found {
            Some(f) => f,
            None => Mailbox::new(),
        }
    }

    /// What storing `mailbox` does: an empty mailbox removes the stored one, any other
    /// replaces it.
    pub fn store_action(&self, mailbox: &Mailbox) -> (a: StoreAction)
        ensures
            a == stored_action(mailbox@),
    {
        if mailbox.is_empty() {
            StoreAction::Remove
        } else {
            StoreAction::Insert
        }
    }
}

impl Default for SessionMessageStore {
    fn default() -> (s: SessionMessageStore)
        ensures
            s.key_view() == "_flash"@,
    {
        SessionMessageStore { key: String::from_str("_flash") }
    }
}

/// The kind of a flash message.
#[derive(Clone, Copy, Debug, PartialEq, Eq, Structural)]
pub enum FlashType {
    Message,
    Error,
    Data,
}

/// One flash message: its key, its text and its kind.
#[derive(Clone, Debug)]
pub struct Flash {
    key: String,
    content: String,
    flash_type: FlashType,
}

impl View for Flash {
    /// The key, the text and the kind.
    type V = (Seq<char>, Seq<char>, FlashType);

    closed spec fn view(&self) -> Self::V {
        (self.key@, self.content@, self.flash_type)
    }
}

impl Flash {
    /// A flash message of the given kind under `key` with the given text.
    pub fn new(key: String, content: String, flash_type: FlashType) -> (f: Flash)
        ensures
            f@ == (key@, content@, flash_type),
    {
        Flash { key, content, flash_type }
    }

    /// The key of the message.
    pub fn key(&self) -> (k: &str)
        ensures
            k@ == self@.0,
    {
        self.key.as_str()
    }

    /// The text of the message.
    pub fn content(&self) -> (c: &str)
        ensures
            c@ == self@.1,
    {
        self.content.as_str()
    }

    /// The kind of the message.
    pub fn flash_type(&self) -> (t: FlashType)
        ensures
            t == self@.2,
    {
        self.flash_type
    }
}


/// A mailbox in which `add_message` or `add_error` recorded something is kept in the
/// session by the next store: `store_action` on it answers `Insert`, whatever else the
/// mailbox holds.
pub proof fn law_recorded_flash_is_kept(v: MailboxView, key: Seq<char>, content: Seq<char>)
    ensures
        stored_action(with_message(v, key, content)) == StoreAction::Insert,
        stored_action(with_error(v, key, content)) == StoreAction::Insert,
{
    assert(with_message(v, key, content).0.contains_key(key));
    assert(with_error(v, key, content).1.contains_key(key));
}

/// Data that `add_data` recorded does not change what the next store does: this mailbox
/// does not count its data, so a mailbox that holds only data is removed.
pub proof fn law_recorded_data_changes_no_store(v: MailboxView, key: Seq<char>, content: Seq<char>)
    ensures
        stored_action(with_data(v, key, content)) == stored_action(v),
        mailbox_empty(v) ==> stored_action(with_data(v, key, content)) == StoreAction::Remove,
{
}

} // verus!
