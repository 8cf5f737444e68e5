//! The session and message store, held in memory.

use crate::error::{text_outcome, unit_outcome, StoreError};
use crate::ident::{decimal, id_text};
use crate::model::{
    lemma_active_index, lemma_delete_keeps_wf, lemma_insert_keeps_wf, lemma_message_index,
    lemma_recent_newest_first, lemma_resolve_keeps_wf, lemma_session_index, lemma_touch_keeps_wf,
    StoreView,
};
use crate::records::{message_views, session_views, ChatMessage, Session};
use vstd::prelude::*;

verus! {

/// Sessions and messages in the order of their creation, and a clock that
/// stamps and names each new row.
pub struct Store {
    sessions: Vec<Session>,
    messages: Vec<ChatMessage>,
    clock: u64,
}

impl View for Store {
    type V = StoreView;

    closed spec fn view(&self) -> StoreView {
        StoreView {
            sessions: session_views(self.sessions@),
            messages: message_views(self.messages@),
            clock: self.clock as nat,
        }
    }
}

impl Store {
    /// The store keeps its invariant.
    pub open spec fn wf(&self) -> bool {
        self@.wf()
    }

    /// A store without rows.
    pub fn new() -> (store: Store)
        ensures
            store@ == StoreView::empty(),
            store.wf(),
    {
        let store = Store { sessions: Vec::new(), messages: Vec::new(), clock: 0 };
        assert(store@.sessions =~= Seq::empty());
        assert(store@.messages =~= Seq::empty());
        store
    }

    /// Takes rows and a clock as a store, where they keep the invariant of
    /// one: `None` where they do not.
    pub fn restore(sessions: Vec<Session>, messages: Vec<ChatMessage>, clock: u64) -> (restored:
        Option<Store>)
        ensures
            match restored {
                Some(store) => store.wf() && store@ == (StoreView {
                    sessions: session_views(sessions@),
                    messages: message_views(messages@),
                    clock: clock as nat,
                }),
                None => !(StoreView {
                    sessions: session_views(sessions@),
                    messages: message_views(messages@),
                    clock: clock as nat,
                }).wf(),
            },
    {
        let store = Store { sessions, messages, clock };
        if store.sessions_stamped() && store.messages_stamped() && store.one_active_per_device()
            && store.messages_owned() {
            Some(store)
        } else {
            None
        }
    }

    fn sessions_stamped(&self) -> (ok: bool)
        ensures
            ok == self@.sessions_stamped(),
    {
        let mut i: usize = 0;
        while i < self.sessions.len()
            invariant
                i <= self.sessions.len(),
                forall|k: int|
                    0 <= k < i ==> {
                        &&& (#[trigger] self@.sessions[k]).id == decimal(
                            self@.sessions[k].created_at,
                        )
                        &&& self@.sessions[k].created_at < self@.clock
                        &&& self@.sessions[k].last_message_at <= self@.clock
                    },
                forall|a: int, b: int|
                    0 <= a < b < i ==> (#[trigger] self@.sessions[a]).created_at < (
                    #[trigger] self@.sessions[b]).created_at,
            decreases self.sessions.len() - i,
        {
            let row = &self.sessions[i];
            assert(row@ == self@.sessions[i as int]);
            if row.created_at >= self.clock || row.last_message_at > self.clock {
                return false;
            }
            if !(row.id == id_text(row.created_at)) {
                return false;
            }
            if i > 0 {
                assert(self.sessions[i - 1]@ == self@.sessions[i - 1]);
                if self.sessions[i - 1].created_at >= row.created_at {
                    return false;
                }
            }
            i += 1;
        }
        true
    }

    fn messages_stamped(&self) -> (ok: bool)
        ensures
            ok == self@.messages_stamped(),
    {
        let mut i: usize = 0;
        while i < self.messages.len()
            invariant
                i <= self.messages.len(),
                forall|k: int|
                    0 <= k < i ==> {
                        &&& (#[trigger] self@.messages[k]).id == decimal(
                            self@.messages[k].created_at,
                        )
                        &&& self@.messages[k].created_at < self@.clock
                    },
                forall|a: int, b: int|
                    0 <= a < b < i ==> (#[trigger] self@.messages[a]).created_at < (
                    #[trigger] self@.messages[b]).created_at,
            decreases self.messages.len() - i,
        {
            let row = &self.messages[i];
            assert(row@ == self@.messages[i as int]);
            if row.created_at >= self.clock {
                return false;
            }
            if !(row.id == id_text(row.created_at)) {
                return false;
            }
            if i > 0 {
                assert(self.messages[i - 1]@ == self@.messages[i - 1]);
                if self.messages[i - 1].created_at >= row.created_at {
                    return false;
                }
            }
            i += 1;
        }
        true
    }

    fn one_active_per_device(&self) -> (ok: bool)
        ensures
            ok == self@.one_active_per_device(),
    {
        let n = self.sessions.len();
        let mut i: usize = 0;
        while i < n
            invariant
                n == self.sessions.len(),
                i <= n,
                forall|a: int, b: int|
                    0 <= a < i && a < b < n && (#[trigger] self@.sessions[a]).is_active && (
                    #[trigger] self@.sessions[b]).is_active ==> self@.sessions[a].device_id
                        != self@.sessions[b].device_id,
            decreases n - i,
        {
            if self.sessions[i].is_active {
                let mut j: usize = i + 1;
                while j < n
                    invariant
                        n == self.sessions.len(),
                        i < j <= n,
                        self@.sessions[i as int].is_active,
                        forall|b: int|
                            i < b < j && (#[trigger] self@.sessions[b]).is_active
                                ==> self@.sessions[i as int].device_id
                                != self@.sessions[b].device_id,
                    decreases n - j,
                {
                    if self.sessions[j].is_active && self.sessions[j].device_id
                        == self.sessions[i].device_id {
                        assert(self@.sessions[i as int].is_active && self@.sessions[j as int].is_active);
                        return false;
                    }
                    j += 1;
                }
            }
            i += 1;
        }
        true
    }

    fn messages_owned(&self) -> (ok: bool)
        ensures
            ok == self@.messages_owned(),
    {
        let mut i: usize = 0;
        while i < self.messages.len()
            invariant
                i <= self.messages.len(),
                forall|k: int|
                    0 <= k < i ==> self@.has_session((#[trigger] self@.messages[k]).session_id),
            decreases self.messages.len() - i,
        {
            assert(self.messages[i as int]@ == self@.messages[i as int]);
            if self.find_session(&self.messages[i].session_id).is_none() {
                return false;
            }
            i += 1;
        }
        true
    }

    fn find_session(&self, id: &String) -> (found: Option<usize>)
        ensures
            match found {
                Some(i) => i < self@.sessions.len() && self@.sessions[i as int].id == id@,
                None => !self@.has_session(id@),
            },
    {
        let mut i: usize = 0;
        while i < self.sessions.len()
            invariant
                i <= self.sessions.len(),
                forall|k: int| 0 <= k < i ==> (#[trigger] self@.sessions[k]).id != id@,
            decreases self.sessions.len() - i,
        {
            if self.sessions[i].id == *id {
                return Some(i);
            }
            i += 1;
        }
        None
    }

    fn find_active(&self, device: &String) -> (found: Option<usize>)
        ensures
            match found {
                Some(i) => self@.active_at(i as int, device@),
                None => !self@.has_active(device@),
            },
    {
        let mut i: usize = 0;
        while i < self.sessions.len()
            invariant
                i <= self.sessions.len(),
                forall|k: int| 0 <= k < i ==> !#[trigger] self@.active_at(k, device@),
            decreases self.sessions.len() - i,
        {
            if self.sessions[i].is_active && self.sessions[i].device_id == *device {
                return Some(i);
            }
            i += 1;
        }
        None
    }

    fn find_message(&self, id: &String) -> (found: Option<usize>)
        ensures
            match found {
                Some(i) => i < self@.messages.len() && self@.messages[i as int].id == id@,
                None => !self@.has_message(id@),
            },
    {
        let mut i: usize = 0;
        while i < self.messages.len()
            invariant
                i <= self.messages.len(),
                forall|k: int| 0 <= k < i ==> (#[trigger] self@.messages[k]).id != id@,
            decreases self.messages.len() - i,
        {
            if self.messages[i].id == *id {
                return Some(i);
            }
            i += 1;
        }
        None
    }

    /// Returns the identifier of the active session of `device`. Where the
    /// device has none, a session with the given title is opened, made the
    /// active one, and its identifier returned. The store changes only where
    /// a session is opened.
    pub fn get_or_create_active_session(&mut self, device: &str, title: &str) -> (outcome: Result<
        String,
        StoreError,
    >)
        requires
            old(self).wf(),
        ensures
            final(self).wf(),
            final(self)@ == old(self)@.after_resolve(device@, title@),
            text_outcome(outcome) == old(self)@.resolve_outcome(device@),
    {
        let device = String::from_str(device);
        proof {
            lemma_resolve_keeps_wf(self@, device@, title@);
        }
        match self.find_active(&device) {
            Some(i) => {
                proof {
                    lemma_active_index(self@, device@, i as int);
                }
                Ok(self.sessions[i].id.clone())
            },
            None => {
                if self.clock == u64::MAX {
                    Err(StoreError::IO(String::from_str("store clock exhausted")))
                } else {
                    let id = id_text(self.clock);
                    let session = Session {
                        id: id.clone(),
                        device_id: device,
                        title: Some(String::from_str(title)),
                        is_active: true,
                        created_at: self.clock,
                        last_message_at: self.clock,
                    };
                    self.sessions.push(session);
                    self.clock = self.clock + 1;
                    assert(self@.sessions =~= old(self)@.sessions.push(session@));
                    Ok(id)
                }
            },
        }
    }

    /// Appends a message to a session. Fails with `NotFound`, leaving the
    /// store as it was, where no session has the identifier.
    pub fn insert_message(&mut self, session_id: &str, role: &str, content: &str) -> (outcome:
        Result<(), StoreError>)
        requires
            old(self).wf(),
        ensures
            final(self).wf(),
            final(self)@ == old(self)@.after_insert(session_id@, role@, content@),
            unit_outcome(outcome) == old(self)@.insert_outcome(session_id@),
    {
        let session_id = String::from_str(session_id);
        proof {
            lemma_insert_keeps_wf(self@, session_id@, role@, content@);
        }
        match self.find_session(&session_id) {
            None => Err(StoreError::NotFound),
            Some(i) => {
                proof {
                    lemma_session_index(self@, session_id@, i as int);
                }
                if self.clock == u64::MAX {
                    Err(StoreError::IO(String::from_str("store clock exhausted")))
                } else {
                    let message = ChatMessage {
                        id: id_text(self.clock),
                        session_id,
                        role: String::from_str(role),
                        content: String::from_str(content),
                        created_at: self.clock,
                    };
                    self.messages.push(message);
                    self.clock = self.clock + 1;
                    assert(self@.messages =~= old(self)@.messages.push(message@));
                    Ok(())
                }
            },
        }
    }

    /// Records that a message arrived in a session now, and gives the
    /// session the fallback title where it has none. Does nothing where no
    /// session has the identifier.
    pub fn touch_session(&mut self, session_id: &str, fallback_title: &str)
        requires
            old(self).wf(),
        ensures
            final(self).wf(),
            final(self)@ == old(self)@.after_touch(session_id@, fallback_title@),
    {
        let session_id = String::from_str(session_id);
        proof {
            lemma_touch_keeps_wf(self@, session_id@, fallback_title@);
        }
        match self.find_session(&session_id) {
            None => {},
            Some(i) => {
                proof {
                    lemma_session_index(self@, session_id@, i as int);
                }
                let now = self.clock;
                let session = &mut self.sessions[i];
                session.last_message_at = now;
                if session.title.is_none() {
                    session.title = Some(String::from_str(fallback_title));
                }
                assert(self@.sessions =~= old(self)@.sessions.update(
                    i as int,
                    StoreView::touched_session(
                        old(self)@.sessions[i as int],
                        fallback_title@,
                        old(self)@.clock,
                    ),
                ));
            },
        }
    }

    /// Returns the newest messages of all sessions, newest first, at most
    /// `limit` of them.
    pub fn fetch_recent_messages(&self, limit: usize) -> (rows: Vec<ChatMessage>)
        requires
            self.wf(),
        ensures
            message_views(rows@) == self@.recent(limit as nat),
            rows.len() <= limit,
            forall|i: int, j: int|
                0 <= i < j < rows.len() ==> (#[trigger] rows[i]).created_at > (
                #[trigger] rows[j]).created_at,
    {
        let n = self.messages.len();
        let k = if limit < n { limit } else { n };
        let mut rows: Vec<ChatMessage> = Vec::new();
        let mut i: usize = 0;
        while i < k
            invariant
                n == self.messages.len(),
                k <= n,
                i <= k,
                rows.len() == i,
                forall|j: int| 0 <= j < i ==> (#[trigger] rows[j])@ == self.messages[n - 1 - j]@,
            decreases k - i,
        {
            rows.push(self.messages[n - 1 - i].clone());
            i += 1;
        }
        proof {
            let recent = self@.recent(limit as nat);
            assert(message_views(rows@) =~= recent);
            lemma_recent_newest_first(self@, limit as nat);
            assert forall|i: int, j: int| 0 <= i < j < rows.len() implies (
            #[trigger] rows[i]).created_at > (#[trigger] rows[j]).created_at by {
                assert(rows[i]@ == recent[i] && rows[j]@ == recent[j]);
            }
        }
        rows
    }

    /// Removes the message with this identifier and leaves every other row
    /// as it was. Fails with `NotFound`, changing nothing, where no message
    /// has the identifier.
    pub fn delete_message(&mut self, id: &str) -> (outcome: Result<(), StoreError>)
        requires
            old(self).wf(),
        ensures
            final(self).wf(),
            final(self)@ == old(self)@.after_delete(id@),
            unit_outcome(outcome) == old(self)@.delete_outcome(id@),
    {
        let id = String::from_str(id);
        proof {
            lemma_delete_keeps_wf(self@, id@);
        }
        match self.find_message(&id) {
            None => Err(StoreError::NotFound),
            Some(i) => {
                proof {
                    lemma_message_index(self@, id@, i as int);
                }
                self.messages.remove(i);
                assert(self@.messages =~= old(self)@.messages.remove(i as int));
                Ok(())
            },
        }
    }

    /// Copies of all sessions, oldest first.
    pub fn sessions(&self) -> (rows: Vec<Session>)
        ensures
            session_views(rows@) == self@.sessions,
    {
        let mut rows: Vec<Session> = Vec::new();
        let mut i: usize = 0;
        while i < self.sessions.len()
            invariant
                i <= self.sessions.len(),
                rows.len() == i,
                forall|j: int| 0 <= j < i ==> (#[trigger] rows[j])@ == self.sessions[j]@,
            decreases self.sessions.len() - i,
        {
            rows.push(self.sessions[i].clone());
            i += 1;
        }
        rows
    }

    /// The tick that the next new row will carry.
    pub fn clock(&self) -> (tick: u64)
        ensures
            tick == self@.clock,
    {
        self.clock
    }

    /// The number of messages held.
    pub fn message_count(&self) -> (n: usize)
        ensures
            n == self@.messages.len(),
    {
        self.messages.len()
    }
}

} // verus!
