//! The store as a mathematical value, what each operation makes of it, and
//! the invariant that every operation keeps.

use crate::error::StoreErrorView;
use crate::ident::{decimal, lemma_decimal_injective};
use crate::records::{MessageView, SessionView};
use vstd::prelude::*;

verus! {

/// The sessions and messages of a store, each in the order of creation, and
/// the tick that the next new row will carry.
pub struct StoreView {
    pub sessions: Seq<SessionView>,
    pub messages: Seq<MessageView>,
    pub clock: nat,
}

/// The text that reports a store whose clock cannot advance.
pub open spec fn exhausted_detail() -> Seq<char> {
    "store clock exhausted"@
}

impl StoreView {
    /// A store without rows, at tick zero.
    pub open spec fn empty() -> StoreView {
        StoreView { sessions: Seq::empty(), messages: Seq::empty(), clock: 0 }
    }

    /// Every session was made before the present tick, is named by the tick
    /// of its creation, and sessions stand in the order of their creation.
    pub open spec fn sessions_stamped(self) -> bool {
        &&& forall|i: int|
            0 <= i < self.sessions.len() ==> {
                &&& (#[trigger] self.sessions[i]).id == decimal(self.sessions[i].created_at)
                &&& self.sessions[i].created_at < self.clock
                &&& self.sessions[i].last_message_at <= self.clock
            }
        &&& forall|i: int, j: int|
            0 <= i < j < self.sessions.len() ==> (#[trigger] self.sessions[i]).created_at < (
            #[trigger] self.sessions[j]).created_at
    }

    /// The same of the messages.
    pub open spec fn messages_stamped(self) -> bool {
        &&& forall|i: int|
            0 <= i < self.messages.len() ==> {
                &&& (#[trigger] self.messages[i]).id == decimal(self.messages[i].created_at)
                &&& self.messages[i].created_at < self.clock
            }
        &&& forall|i: int, j: int|
            0 <= i < j < self.messages.len() ==> (#[trigger] self.messages[i]).created_at < (
            #[trigger] self.messages[j]).created_at
    }

    /// Some session has this identifier.
    pub open spec fn has_session(self, id: Seq<char>) -> bool {
        exists|i: int| 0 <= i < self.sessions.len() && (#[trigger] self.sessions[i]).id == id
    }

    /// The place of the session with this identifier.
    pub open spec fn session_index(self, id: Seq<char>) -> int {
        choose|i: int| 0 <= i < self.sessions.len() && (#[trigger] self.sessions[i]).id == id
    }

    /// The session at place `i` is the active one of `device`.
    pub open spec fn active_at(self, i: int, device: Seq<char>) -> bool {
        &&& 0 <= i < self.sessions.len()
        &&& self.sessions[i].device_id == device
        &&& self.sessions[i].is_active
    }

    /// The device has an active session.
    pub open spec fn has_active(self, device: Seq<char>) -> bool {
        exists|i: int| #[trigger] self.active_at(i, device)
    }

    /// The place of the device's active session.
    pub open spec fn active_index(self, device: Seq<char>) -> int {
        choose|i: int| #[trigger] self.active_at(i, device)
    }

    /// Some message has this identifier.
    pub open spec fn has_message(self, id: Seq<char>) -> bool {
        exists|i: int| 0 <= i < self.messages.len() && (#[trigger] self.messages[i]).id == id
    }

    /// The place of the message with this identifier.
    pub open spec fn message_index(self, id: Seq<char>) -> int {
        choose|i: int| 0 <= i < self.messages.len() && (#[trigger] self.messages[i]).id == id
    }

    /// No device has two active sessions.
    pub open spec fn one_active_per_device(self) -> bool {
        forall|i: int, j: int|
            0 <= i < j < self.sessions.len() && (#[trigger] self.sessions[i]).is_active && (
            #[trigger] self.sessions[j]).is_active ==> self.sessions[i].device_id
                != self.sessions[j].device_id
    }

    /// Every message belongs to a session of the store.
    pub open spec fn messages_owned(self) -> bool {
        forall|i: int|
            0 <= i < self.messages.len() ==> self.has_session(
                (#[trigger] self.messages[i]).session_id,
            )
    }

    /// The invariant of the store.
    pub open spec fn wf(self) -> bool {
        &&& self.clock <= u64::MAX
        &&& self.sessions_stamped()
        &&& self.messages_stamped()
        &&& self.one_active_per_device()
        &&& self.messages_owned()
    }

    /// The clock has reached its last tick, so no row can be made.
    pub open spec fn exhausted(self) -> bool {
        self.clock >= u64::MAX
    }

    /// The session that a device opens at the present tick.
    pub open spec fn new_session(self, device: Seq<char>, title: Seq<char>) -> SessionView {
        SessionView {
            id: decimal(self.clock),
            device_id: device,
            title: Some(title),
            is_active: true,
            created_at: self.clock,
            last_message_at: self.clock,
        }
    }

    /// What looking up or opening the active session of `device` returns:
    /// the identifier of the active session where there is one, else that of
    /// the session opened now, else the failure of a store that cannot open
    /// one.
    pub open spec fn resolve_outcome(self, device: Seq<char>) -> Result<Seq<char>, StoreErrorView> {
        if self.has_active(device) {
            Ok(self.sessions[self.active_index(device)].id)
        } else if self.exhausted() {
            Err(StoreErrorView::IO(exhausted_detail()))
        } else {
            Ok(decimal(self.clock))
        }
    }

    /// The store after looking up or opening the active session of `device`.
    pub open spec fn after_resolve(self, device: Seq<char>, title: Seq<char>) -> StoreView {
        if self.has_active(device) || self.exhausted() {
            self
        } else {
            StoreView {
                sessions: self.sessions.push(self.new_session(device, title)),
                messages: self.messages,
                clock: self.clock + 1,
            }
        }
    }

    /// The message that is appended at the present tick.
    pub open spec fn new_message(
        self,
        session_id: Seq<char>,
        role: Seq<char>,
        content: Seq<char>,
    ) -> MessageView {
        MessageView {
            id: decimal(self.clock),
            session_id,
            role,
            content,
            created_at: self.clock,
        }
    }

    /// What appending a message returns.
    pub open spec fn insert_outcome(self, session_id: Seq<char>) -> Result<(), StoreErrorView> {
        if !self.has_session(session_id) {
            Err(StoreErrorView::NotFound)
        } else if self.exhausted() {
            Err(StoreErrorView::IO(exhausted_detail()))
        } else {
            Ok(())
        }
    }

    /// The store after appending a message: one more message where the
    /// session exists and the clock can advance, else the store as it was.
    pub open spec fn after_insert(
        self,
        session_id: Seq<char>,
        role: Seq<char>,
        content: Seq<char>,
    ) -> StoreView {
        if self.insert_outcome(session_id) is Ok {
            StoreView {
                sessions: self.sessions,
                messages: self.messages.push(self.new_message(session_id, role, content)),
                clock: self.clock + 1,
            }
        } else {
            self
        }
    }

    /// A session after a message arrived at tick `now`: the title is set
    /// only where there was none.
    pub open spec fn touched_session(
        session: SessionView,
        fallback_title: Seq<char>,
        now: nat,
    ) -> SessionView {
        SessionView {
            title: match session.title {
                Some(t) => Some(t),
                None => Some(fallback_title),
            },
            last_message_at: now,
            ..session
        }
    }

    /// The store after touching a session; unchanged where the session does
    /// not exist.
    pub open spec fn after_touch(self, session_id: Seq<char>, fallback_title: Seq<char>) -> StoreView {
        if self.has_session(session_id) {
            let i = self.session_index(session_id);
            StoreView {
                sessions: self.sessions.update(
                    i,
                    Self::touched_session(self.sessions[i], fallback_title, self.clock),
                ),
                messages: self.messages,
                clock: self.clock,
            }
        } else {
            self
        }
    }

    /// What deleting a message returns.
    pub open spec fn delete_outcome(self, id: Seq<char>) -> Result<(), StoreErrorView> {
        if self.has_message(id) {
            Ok(())
        } else {
            Err(StoreErrorView::NotFound)
        }
    }

    /// The store after deleting a message; unchanged where no message has
    /// the identifier.
    pub open spec fn after_delete(self, id: Seq<char>) -> StoreView {
        if self.has_message(id) {
            StoreView {
                sessions: self.sessions,
                messages: self.messages.remove(self.message_index(id)),
                clock: self.clock,
            }
        } else {
            self
        }
    }

    /// The newest messages, newest first, at most `limit` of them.
    pub open spec fn recent(self, limit: nat) -> Seq<MessageView> {
        let n = self.messages.len();
        let k = if limit < n { limit } else { n };
        Seq::new(k, |i: int| self.messages[n - 1 - i])
    }
}

/// Sessions at different places have different identifiers.
pub proof fn lemma_session_ids_distinct(s: StoreView, i: int, j: int)
    requires
        s.wf(),
        0 <= i < s.sessions.len(),
        0 <= j < s.sessions.len(),
        i != j,
    ensures
        s.sessions[i].id != s.sessions[j].id,
{
    if s.sessions[i].id == s.sessions[j].id {
        lemma_decimal_injective(s.sessions[i].created_at, s.sessions[j].created_at);
    }
}

/// Messages at different places have different identifiers.
pub proof fn lemma_message_ids_distinct(s: StoreView, i: int, j: int)
    requires
        s.wf(),
        0 <= i < s.messages.len(),
        0 <= j < s.messages.len(),
        i != j,
    ensures
        s.messages[i].id != s.messages[j].id,
{
    if s.messages[i].id == s.messages[j].id {
        lemma_decimal_injective(s.messages[i].created_at, s.messages[j].created_at);
    }
}

/// The session found under an identifier is the one the model speaks of.
pub proof fn lemma_session_index(s: StoreView, id: Seq<char>, i: int)
    requires
        s.wf(),
        0 <= i < s.sessions.len(),
        s.sessions[i].id == id,
    ensures
        s.has_session(id),
        s.session_index(id) == i,
{
    let c = s.session_index(id);
    if c != i {
        lemma_session_ids_distinct(s, c, i);
    }
}

/// The message found under an identifier is the one the model speaks of.
pub proof fn lemma_message_index(s: StoreView, id: Seq<char>, i: int)
    requires
        s.wf(),
        0 <= i < s.messages.len(),
        s.messages[i].id == id,
    ensures
        s.has_message(id),
        s.message_index(id) == i,
{
    let c = s.message_index(id);
    if c != i {
        lemma_message_ids_distinct(s, c, i);
    }
}

/// The active session found for a device is the one the model speaks of.
pub proof fn lemma_active_index(s: StoreView, device: Seq<char>, i: int)
    requires
        s.wf(),
        s.active_at(i, device),
    ensures
        s.has_active(device),
        s.active_index(device) == i,
{
}

/// Looking up or opening a session keeps the invariant.
pub proof fn lemma_resolve_keeps_wf(s: StoreView, device: Seq<char>, title: Seq<char>)
    requires
        s.wf(),
    ensures
        s.after_resolve(device, title).wf(),
        s.resolve_outcome(device) is Ok ==> s.after_resolve(device, title).has_session(
            s.resolve_outcome(device)->Ok_0,
        ),
{
    let t = s.after_resolve(device, title);
    if !s.has_active(device) && !s.exhausted() {
        let n = s.sessions.len() as int;
        assert forall|i: int, j: int|
            0 <= i < j < t.sessions.len() && (#[trigger] t.sessions[i]).is_active && (
            #[trigger] t.sessions[j]).is_active implies t.sessions[i].device_id
            != t.sessions[j].device_id by {
            if j == n {
                assert(!s.active_at(i, device));
            }
        }
        assert forall|i: int| 0 <= i < t.messages.len() implies t.has_session(
            (#[trigger] t.messages[i]).session_id,
        ) by {
            let k = s.session_index(s.messages[i].session_id);
            assert(t.sessions[k] == s.sessions[k]);
        }
        assert(t.sessions[n].id == decimal(s.clock));
    }
}

/// Once a device has its session, asking again returns the same session and
/// changes nothing, whatever title is offered.
pub proof fn lemma_resolve_is_stable(
    s: StoreView,
    device: Seq<char>,
    title: Seq<char>,
    later_title: Seq<char>,
)
    requires
        s.wf(),
        s.resolve_outcome(device) is Ok,
    ensures
        s.after_resolve(device, title).has_active(device),
        s.after_resolve(device, title).resolve_outcome(device) == s.resolve_outcome(device),
        s.after_resolve(device, title).after_resolve(device, later_title) == s.after_resolve(
            device,
            title,
        ),
{
    lemma_resolve_keeps_wf(s, device, title);
    if !s.has_active(device) {
        lemma_active_index(s.after_resolve(device, title), device, s.sessions.len() as int);
    }
}

/// Appending, touching and deleting leave the active session of a device in
/// place: a lookup after any of them returns the session it returned before,
/// however the operations of several callers are interleaved.
pub proof fn lemma_active_session_stays(
    s: StoreView,
    device: Seq<char>,
    session_id: Seq<char>,
    role: Seq<char>,
    content: Seq<char>,
    fallback_title: Seq<char>,
    message_id: Seq<char>,
)
    requires
        s.wf(),
        s.has_active(device),
    ensures
        s.after_insert(session_id, role, content).resolve_outcome(device) == s.resolve_outcome(
            device,
        ),
        s.after_touch(session_id, fallback_title).resolve_outcome(device) == s.resolve_outcome(
            device,
        ),
        s.after_delete(message_id).resolve_outcome(device) == s.resolve_outcome(device),
{
    let a = s.active_index(device);
    let inserted = s.after_insert(session_id, role, content);
    lemma_insert_keeps_wf(s, session_id, role, content);
    assert(inserted.active_at(a, device));
    lemma_active_index(inserted, device, a);
    let touched = s.after_touch(session_id, fallback_title);
    lemma_touch_keeps_wf(s, session_id, fallback_title);
    assert(touched.active_at(a, device));
    lemma_active_index(touched, device, a);
    let deleted = s.after_delete(message_id);
    lemma_delete_keeps_wf(s, message_id);
    assert(deleted.active_at(a, device));
    lemma_active_index(deleted, device, a);
}

/// Appending a message keeps the invariant.
pub proof fn lemma_insert_keeps_wf(
    s: StoreView,
    session_id: Seq<char>,
    role: Seq<char>,
    content: Seq<char>,
)
    requires
        s.wf(),
    ensures
        s.after_insert(session_id, role, content).wf(),
{
}

/// Touching a session keeps the invariant and every identifier.
pub proof fn lemma_touch_keeps_wf(s: StoreView, session_id: Seq<char>, fallback_title: Seq<char>)
    requires
        s.wf(),
    ensures
        s.after_touch(session_id, fallback_title).wf(),
        forall|id: Seq<char>|
            s.after_touch(session_id, fallback_title).has_session(id) == s.has_session(id),
{
    let t = s.after_touch(session_id, fallback_title);
    if s.has_session(session_id) {
        assert forall|id: Seq<char>| t.has_session(id) == s.has_session(id) by {
            if s.has_session(id) {
                assert(t.sessions[s.session_index(id)].id == id);
            }
        }
    }
}

/// Deleting a message keeps the invariant.
pub proof fn lemma_delete_keeps_wf(s: StoreView, id: Seq<char>)
    requires
        s.wf(),
    ensures
        s.after_delete(id).wf(),
{
}

/// The newest messages are never more than were asked for nor more than
/// there are, come in descending order of creation, and leave out no
/// message that is newer than one of them.
pub proof fn lemma_recent_newest_first(s: StoreView, limit: nat)
    requires
        s.wf(),
    ensures
        s.recent(limit).len() <= limit,
        s.recent(limit).len() == if limit < s.messages.len() {
            limit
        } else {
            s.messages.len()
        },
        forall|i: int, j: int|
            0 <= i < j < s.recent(limit).len() ==> (#[trigger] s.recent(limit)[i]).created_at > (
            #[trigger] s.recent(limit)[j]).created_at,
        forall|i: int|
            0 <= i < s.recent(limit).len() ==> #[trigger] s.recent(limit)[i]
                == s.messages[s.messages.len() - 1 - i],
        forall|i: int, k: int|
            0 <= i < s.recent(limit).len() && 0 <= k < s.messages.len() - s.recent(limit).len()
                ==> (#[trigger] s.messages[k]).created_at < (
            #[trigger] s.recent(limit)[i]).created_at,
{
}

/// Appending to a session that does not exist fails with `NotFound` and
/// leaves the store as it was.
pub proof fn lemma_insert_needs_session(
    s: StoreView,
    session_id: Seq<char>,
    role: Seq<char>,
    content: Seq<char>,
)
    requires
        !s.has_session(session_id),
    ensures
        s.insert_outcome(session_id) == Err::<(), StoreErrorView>(StoreErrorView::NotFound),
        s.after_insert(session_id, role, content) == s,
{
}

/// An append that succeeds adds exactly the new message, after all others,
/// under a fresh identifier.
pub proof fn lemma_insert_appends(
    s: StoreView,
    session_id: Seq<char>,
    role: Seq<char>,
    content: Seq<char>,
)
    requires
        s.wf(),
        s.insert_outcome(session_id) is Ok,
    ensures
        s.after_insert(session_id, role, content).messages == s.messages.push(
            s.new_message(session_id, role, content),
        ),
        s.after_insert(session_id, role, content).sessions == s.sessions,
        !s.has_message(s.new_message(session_id, role, content).id),
{
    let id = decimal(s.clock);
    if s.has_message(id) {
        let k = s.message_index(id);
        lemma_decimal_injective(s.messages[k].created_at, s.clock);
    }
}

/// Deleting under an identifier that no message has fails with `NotFound`
/// and leaves the store as it was.
pub proof fn lemma_delete_missing(s: StoreView, id: Seq<char>)
    requires
        !s.has_message(id),
    ensures
        s.delete_outcome(id) == Err::<(), StoreErrorView>(StoreErrorView::NotFound),
        s.after_delete(id) == s,
{
}

/// Deleting an existing message removes that message and no other: one
/// message fewer, none left under the identifier, every other message found
/// under its identifier as before, and the sessions as they were.
pub proof fn lemma_delete_removes_one(s: StoreView, id: Seq<char>)
    requires
        s.wf(),
        s.has_message(id),
    ensures
        s.delete_outcome(id) is Ok,
        s.after_delete(id).messages.len() == s.messages.len() - 1,
        !s.after_delete(id).has_message(id),
        s.after_delete(id).sessions == s.sessions,
        s.after_delete(id).clock == s.clock,
        forall|other: Seq<char>|
            other != id ==> (#[trigger] s.after_delete(id).has_message(other) == s.has_message(
                other,
            )),
        forall|other: Seq<char>|
            other != id && s.has_message(other) ==> s.after_delete(id).messages[(
            #[trigger] s.after_delete(id).message_index(other))]
                == s.messages[s.message_index(other)],
{
    let t = s.after_delete(id);
    let k = s.message_index(id);
    lemma_delete_keeps_wf(s, id);
    if t.has_message(id) {
        let i = t.message_index(id);
        lemma_message_ids_distinct(s, if i < k { i } else { i + 1 }, k);
    }
    assert forall|other: Seq<char>| other != id implies (#[trigger] t.has_message(other)
        == s.has_message(other)) by {
        if s.has_message(other) {
            let o = s.message_index(other);
            assert(t.messages[if o < k { o } else { o - 1 }] == s.messages[o]);
        }
    }
    assert forall|other: Seq<char>| other != id && s.has_message(other) implies t.messages[(
    #[trigger] t.message_index(other))] == s.messages[s.message_index(other)] by {
        let o = s.message_index(other);
        lemma_message_index(t, other, if o < k { o } else { o - 1 });
    }
}

} // verus!
