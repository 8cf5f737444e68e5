//! The rows the store keeps and the fragment that a client hands in.

use vstd::prelude::*;

verus! {

/// A piece of text captured by a client. It lives for one intake call.
#[derive(Debug, PartialEq, Eq)]
pub struct Fragment {
    /// The identifier that the client chose.
    pub id: String,
    pub content: String,
    /// The client's own time.
    pub timestamp: u64,
    /// Absent until an intake has completed.
    pub processed: Option<bool>,
}

/// What a `Fragment` holds, as mathematical values.
pub struct FragmentView {
    pub id: Seq<char>,
    pub content: Seq<char>,
    pub timestamp: u64,
    pub processed: Option<bool>,
}

impl View for Fragment {
    type V = FragmentView;

    open spec fn view(&self) -> FragmentView {
        FragmentView {
            id: self.id@,
            content: self.content@,
            timestamp: self.timestamp,
            processed: self.processed,
        }
    }
}

impl FragmentView {
    /// The same fragment with its processed flag set.
    pub open spec fn processed(self) -> FragmentView {
        FragmentView { processed: Some(true), ..self }
    }
}

impl Clone for Fragment {
    fn clone(&self) -> (copy: Self)
        ensures
            copy@ == self@,
    {
        Fragment {
            id: self.id.clone(),
            content: self.content.clone(),
            timestamp: self.timestamp,
            processed: self.processed,
        }
    }
}

impl Fragment {
    /// A fragment as a client first submits it: not yet processed.
    pub fn new(id: String, content: String, timestamp: u64) -> (fragment: Fragment)
        ensures
            fragment@ == (FragmentView {
                id: id@,
                content: content@,
                timestamp,
                processed: None,
            }),
    {
        Fragment { id, content, timestamp, processed: None }
    }

    /// Sets the processed flag and leaves the rest as it was.
    pub fn mark_processed(self) -> (done: Fragment)
        ensures
            done@ == self@.processed(),
    {
        Fragment {
            id: self.id,
            content: self.content,
            timestamp: self.timestamp,
            processed: Some(true),
        }
    }
}

/// One stored message.
#[derive(Debug, PartialEq, Eq)]
pub struct ChatMessage {
    pub id: String,
    pub session_id: String,
    pub role: String,
    pub content: String,
    /// The time of creation, as the store that holds the message counts it.
    pub created_at: u64,
}

/// What a `ChatMessage` holds, as mathematical values.
pub struct MessageView {
    pub id: Seq<char>,
    pub session_id: Seq<char>,
    pub role: Seq<char>,
    pub content: Seq<char>,
    pub created_at: nat,
}

impl View for ChatMessage {
    type V = MessageView;

    open spec fn view(&self) -> MessageView {
        MessageView {
            id: self.id@,
            session_id: self.session_id@,
            role: self.role@,
            content: self.content@,
            created_at: self.created_at as nat,
        }
    }
}

impl Clone for ChatMessage {
    fn clone(&self) -> (copy: Self)
        ensures
            copy@ == self@,
    {
        ChatMessage {
            id: self.id.clone(),
            session_id: self.session_id.clone(),
            role: self.role.clone(),
            content: self.content.clone(),
            created_at: self.created_at,
        }
    }
}

/// One stored session.
#[derive(Debug, PartialEq, Eq)]
pub struct Session {
    pub id: String,
    /// The tag of the device that owns the session.
    pub device_id: String,
    /// Derived from the first message; absent until one is set.
    pub title: Option<String>,
    pub is_active: bool,
    /// The time of creation, as the store that holds the session counts it.
    pub created_at: u64,
    /// The time at which the newest message arrived, counted likewise.
    pub last_message_at: u64,
}

/// What a `Session` holds, as mathematical values.
pub struct SessionView {
    pub id: Seq<char>,
    pub device_id: Seq<char>,
    pub title: Option<Seq<char>>,
    pub is_active: bool,
    pub created_at: nat,
    pub last_message_at: nat,
}

/// The text of an optional string.
pub open spec fn text_of(s: Option<String>) -> Option<Seq<char>> {
    match s {
        Some(t) => Some(t@),
        None => None,
    }
}

impl View for Session {
    type V = SessionView;

    open spec fn view(&self) -> SessionView {
        SessionView {
            id: self.id@,
            device_id: self.device_id@,
            title: text_of(self.title),
            is_active: self.is_active,
            created_at: self.created_at as nat,
            last_message_at: self.last_message_at as nat,
        }
    }
}

impl Clone for Session {
    fn clone(&self) -> (copy: Self)
        ensures
            copy@ == self@,
    {
        let title = match &self.title {
            Some(t) => Some(t.clone()),
            None => None,
        };
        Session {
            id: self.id.clone(),
            device_id: self.device_id.clone(),
            title,
            is_active: self.is_active,
            created_at: self.created_at,
            last_message_at: self.last_message_at,
        }
    }
}

/// The messages of a vector as mathematical values.
pub open spec fn message_views(rows: Seq<ChatMessage>) -> Seq<MessageView> {
    rows.map_values(|m: ChatMessage| m@)
}

/// The sessions of a vector as mathematical values.
pub open spec fn session_views(rows: Seq<Session>) -> Seq<SessionView> {
    rows.map_values(|s: Session| s@)
}

} // verus!
