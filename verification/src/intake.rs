//! Fragment intake: a fragment becomes a message of the active session.
//!
//! The steps between two store operations are values of their own, so that a
//! host which keeps its rows elsewhere can perform each operation itself and
//! hand the outcome back. `file_fragment` runs the same steps on a `Store`.

use crate::error::{StoreError, StoreErrorView};
use crate::ident::decimal;
use crate::model::{
    lemma_active_index, lemma_insert_keeps_wf, lemma_resolve_keeps_wf, lemma_session_index,
    lemma_touch_keeps_wf, StoreView,
};
use crate::records::{Fragment, FragmentView};
use crate::store::Store;
use crate::title::{derive_title, title_of};
use vstd::prelude::*;

verus! {

/// Longest intake, in milliseconds, that passes without a warning.
pub const LATENCY_BUDGET_MS: u64 = 500;

/// The device under which every fragment is filed.
pub open spec fn device_tag() -> Seq<char> {
    "default"@
}

/// The role that every filed message carries.
pub open spec fn producer_role() -> Seq<char> {
    "user"@
}

/// The device under which every fragment is filed.
pub fn default_device() -> (tag: &'static str)
    ensures
        tag@ == device_tag(),
{
    "default"
}

/// The role that every filed message carries.
pub fn user_role() -> (role: &'static str)
    ensures
        role@ == producer_role(),
{
    "user"
}

/// Whether an intake that took this long went over its budget.
pub fn over_budget(elapsed_ms: u128) -> (over: bool)
    ensures
        over == (elapsed_ms > 500),
{
    elapsed_ms > 500
}

/// Why a fragment was not filed.
#[derive(Debug, PartialEq, Eq)]
pub enum IntakeError {
    /// The active session could be neither found nor opened.
    Session(StoreError),
    /// The message could not be stored.
    Save(StoreError),
}

/// An `IntakeError` as a mathematical value.
pub enum IntakeErrorView {
    Session(StoreErrorView),
    Save(StoreErrorView),
}

impl View for IntakeError {
    type V = IntakeErrorView;

    open spec fn view(&self) -> IntakeErrorView {
        match self {
            IntakeError::Session(e) => IntakeErrorView::Session(e@),
            IntakeError::Save(e) => IntakeErrorView::Save(e@),
        }
    }
}

impl IntakeErrorView {
    /// The text by which the error is reported.
    pub open spec fn message(self) -> Seq<char> {
        match self {
            IntakeErrorView::Session(e) => "Failed to get/create session: "@ + e.describe(),
            IntakeErrorView::Save(e) => "Failed to save message: "@ + e.describe(),
        }
    }
}

impl IntakeError {
    /// The text by which the error is reported.
    pub fn message(&self) -> (text: String)
        ensures
            text@ == self@.message(),
    {
        match self {
            IntakeError::Session(e) => {
                let detail = e.describe();
                String::from_str("Failed to get/create session: ").concat(detail.as_str())
            },
            IntakeError::Save(e) => {
                let detail = e.describe();
                String::from_str("Failed to save message: ").concat(detail.as_str())
            },
        }
    }
}

/// An intake that waits for its session.
pub struct Intake {
    fragment: Fragment,
    title: String,
}

/// An intake that knows its session and waits for its message to be stored.
pub struct PendingMessage {
    fragment: Fragment,
    title: String,
    session_id: String,
}

/// An intake whose message is stored and whose session is still to be
/// touched.
pub struct PendingTouch {
    fragment: Fragment,
    title: String,
    session_id: String,
}

/// What an intake holds: the fragment, the title derived from it, and the
/// session once it is known.
pub struct IntakeView {
    pub fragment: FragmentView,
    pub title: Seq<char>,
    pub session_id: Option<Seq<char>>,
}

impl View for Intake {
    type V = IntakeView;

    closed spec fn view(&self) -> IntakeView {
        IntakeView { fragment: self.fragment@, title: self.title@, session_id: None }
    }
}

impl View for PendingMessage {
    type V = IntakeView;

    closed spec fn view(&self) -> IntakeView {
        IntakeView {
            fragment: self.fragment@,
            title: self.title@,
            session_id: Some(self.session_id@),
        }
    }
}

impl View for PendingTouch {
    type V = IntakeView;

    closed spec fn view(&self) -> IntakeView {
        IntakeView {
            fragment: self.fragment@,
            title: self.title@,
            session_id: Some(self.session_id@),
        }
    }
}

impl Intake {
    /// Takes a fragment in and derives its title.
    pub fn begin(fragment: Fragment) -> (intake: Intake)
        ensures
            intake@ == (IntakeView {
                fragment: fragment@,
                title: title_of(fragment@.content),
                session_id: None,
            }),
    {
        let title = derive_title(fragment.content.as_str());
        Intake { fragment, title }
    }

    /// The title to open a session with where the device has none.
    pub fn title(&self) -> (title: &str)
        ensures
            title@ == self@.title,
    {
        self.title.as_str()
    }

    /// Goes on with the session that was found or opened, or gives up with
    /// the failure to find or open one.
    pub fn session_resolved(self, outcome: Result<String, StoreError>) -> (next: Result<
        PendingMessage,
        IntakeError,
    >)
        ensures
            match outcome {
                Ok(id) => next matches Ok(pending) && pending@ == (IntakeView {
                    session_id: Some(id@),
                    ..self@
                }),
                Err(e) => next matches Err(failure) && failure@ == IntakeErrorView::Session(e@),
            },
    {
        match outcome {
            Ok(session_id) => Ok(
                PendingMessage { fragment: self.fragment, title: self.title, session_id },
            ),
            Err(e) => Err(IntakeError::Session(e)),
        }
    }
}

impl PendingMessage {
    /// The session that receives the message.
    pub fn session_id(&self) -> (id: &str)
        ensures
            Some(id@) == self@.session_id,
    {
        self.session_id.as_str()
    }

    /// The text of the message.
    pub fn content(&self) -> (content: &str)
        ensures
            content@ == self@.fragment.content,
    {
        self.fragment.content.as_str()
    }

    /// Goes on once the message is stored, or gives up with the failure to
    /// store it.
    pub fn message_inserted(self, outcome: Result<(), StoreError>) -> (next: Result<
        PendingTouch,
        IntakeError,
    >)
        ensures
            match outcome {
                Ok(_) => next matches Ok(pending) && pending@ == self@,
                Err(e) => next matches Err(failure) && failure@ == IntakeErrorView::Save(e@),
            },
    {
        match outcome {
            Ok(_) => Ok(
                PendingTouch {
                    fragment: self.fragment,
                    title: self.title,
                    session_id: self.session_id,
                },
            ),
            Err(e) => Err(IntakeError::Save(e)),
        }
    }
}

impl PendingTouch {
    /// The session to touch.
    pub fn session_id(&self) -> (id: &str)
        ensures
            Some(id@) == self@.session_id,
    {
        self.session_id.as_str()
    }

    /// The title for a session that has none.
    pub fn title(&self) -> (title: &str)
        ensures
            title@ == self@.title,
    {
        self.title.as_str()
    }

    /// Ends the intake, whatever became of the touch: the fragment comes
    /// back marked as processed.
    pub fn finish(self) -> (fragment: Fragment)
        ensures
            fragment@ == self@.fragment.processed(),
    {
        self.fragment.mark_processed()
    }
}

/// What filing a text returns: the failure to resolve the session, else the
/// failure to store the message, else success.
pub open spec fn intake_outcome(s: StoreView, content: Seq<char>) -> Result<(), IntakeErrorView> {
    let title = title_of(content);
    match s.resolve_outcome(device_tag()) {
        Err(e) => Err(IntakeErrorView::Session(e)),
        Ok(id) => match s.after_resolve(device_tag(), title).insert_outcome(id) {
            Err(e) => Err(IntakeErrorView::Save(e)),
            Ok(_) => Ok(()),
        },
    }
}

/// The store after filing a text: the session resolved, then the message
/// appended, then, where that succeeded, the session touched.
pub open spec fn after_intake(s: StoreView, content: Seq<char>) -> StoreView {
    let title = title_of(content);
    let resolved = s.after_resolve(device_tag(), title);
    match s.resolve_outcome(device_tag()) {
        Err(_) => resolved,
        Ok(id) => {
            let inserted = resolved.after_insert(id, producer_role(), content);
            if resolved.insert_outcome(id) is Ok {
                inserted.after_touch(id, title)
            } else {
                inserted
            }
        },
    }
}

/// Files a fragment in the store: resolves the active session of the default
/// device, appends the fragment's text as a message of the producer role,
/// touches the session, and returns the fragment marked as processed. A
/// failure of the first two steps ends the intake; the touch cannot fail it.
pub fn file_fragment(store: &mut Store, fragment: Fragment) -> (outcome: Result<
    Fragment,
    IntakeError,
>)
    requires
        old(store).wf(),
    ensures
        final(store).wf(),
        final(store)@ == after_intake(old(store)@, fragment@.content),
        match intake_outcome(old(store)@, fragment@.content) {
            Ok(_) => outcome matches Ok(filed) && filed@ == fragment@.processed(),
            Err(e) => outcome matches Err(failure) && failure@ == e,
        },
{
    let intake = Intake::begin(fragment);
    let resolved = store.get_or_create_active_session(default_device(), intake.title());
    let pending = match intake.session_resolved(resolved) {
        Ok(pending) => pending,
        Err(failure) => {
            return Err(failure);
        },
    };
    let inserted = store.insert_message(pending.session_id(), user_role(), pending.content());
    let touch = match pending.message_inserted(inserted) {
        Ok(touch) => touch,
        Err(failure) => {
            return Err(failure);
        },
    };
    store.touch_session(touch.session_id(), touch.title());
    Ok(touch.finish())
}

/// Filing a text keeps the invariant of the store.
pub proof fn lemma_intake_keeps_wf(s: StoreView, content: Seq<char>)
    requires
        s.wf(),
    ensures
        after_intake(s, content).wf(),
{
    let title = title_of(content);
    lemma_resolve_keeps_wf(s, device_tag(), title);
    let resolved = s.after_resolve(device_tag(), title);
    if let Ok(id) = s.resolve_outcome(device_tag()) {
        lemma_insert_keeps_wf(resolved, id, producer_role(), content);
        let inserted = resolved.after_insert(id, producer_role(), content);
        lemma_touch_keeps_wf(inserted, id, title);
    }
}

/// Two intakes in a row, for a device that had no active session, open one
/// session between them and not two: the second finds the session that the
/// first opened, and both messages are filed under it.
pub proof fn lemma_two_intakes_share_session(s: StoreView, first: Seq<char>, second: Seq<char>)
    requires
        s.wf(),
        !s.has_active(device_tag()),
    ensures
        ({
            let once = after_intake(s, first);
            let twice = after_intake(once, second);
            &&& twice.wf()
            &&& once.sessions.len() == if s.exhausted() {
                s.sessions.len()
            } else {
                s.sessions.len() + 1
            }
            &&& twice.sessions.len() == once.sessions.len()
            &&& intake_outcome(s, first) is Ok ==> {
                &&& once.has_active(device_tag())
                &&& once.sessions[once.active_index(device_tag())].id == decimal(s.clock)
                &&& once.messages.len() == s.messages.len() + 1
                &&& once.messages.last().session_id == decimal(s.clock)
            }
            &&& intake_outcome(s, first) is Ok && intake_outcome(once, second) is Ok ==> {
                &&& twice.messages.len() == s.messages.len() + 2
                &&& twice.messages[s.messages.len() as int].session_id == decimal(s.clock)
                &&& twice.messages[s.messages.len() as int + 1].session_id == decimal(s.clock)
            }
        }),
{
    let once = after_intake(s, first);
    lemma_intake_keeps_wf(s, first);
    lemma_intake_keeps_wf(once, second);
    lemma_intake_sessions(s, first);
    lemma_intake_sessions(once, second);
    if !s.exhausted() {
        lemma_active_index(once, device_tag(), s.sessions.len() as int);
    }
}

/// What filing a text does to the sessions: where the default device has an
/// active session or the clock is exhausted, none is added; else one is, it
/// is the device's active session, and it is named by the tick of the call.
/// A message that is filed stands last and belongs to the resolved session.
pub proof fn lemma_intake_sessions(s: StoreView, content: Seq<char>)
    requires
        s.wf(),
    ensures
        ({
            let t = after_intake(s, content);
            let device = device_tag();
            &&& t.sessions.len() == if s.has_active(device) || s.exhausted() {
                s.sessions.len()
            } else {
                s.sessions.len() + 1
            }
            &&& !s.has_active(device) && !s.exhausted() ==> {
                &&& t.active_at(s.sessions.len() as int, device)
                &&& t.sessions[s.sessions.len() as int].id == decimal(s.clock)
            }
            &&& s.has_active(device) ==> t.active_at(s.active_index(device), device)
                && t.sessions[s.active_index(device)].id == s.sessions[s.active_index(
                device,
            )].id
            &&& intake_outcome(s, content) is Ok ==> {
                &&& t.messages.len() == s.messages.len() + 1
                &&& t.messages.subrange(0, s.messages.len() as int) == s.messages
                &&& Ok::<Seq<char>, StoreErrorView>(t.messages.last().session_id)
                    == s.resolve_outcome(device)
                &&& t.messages.last().content == content
                &&& t.messages.last().role == producer_role()
            }
            &&& intake_outcome(s, content) is Err ==> t.messages == s.messages
        }),
{
    let device = device_tag();
    let title = title_of(content);
    let resolved = s.after_resolve(device, title);
    lemma_resolve_keeps_wf(s, device, title);
    if let Ok(id) = s.resolve_outcome(device) {
        let inserted = resolved.after_insert(id, producer_role(), content);
        lemma_insert_keeps_wf(resolved, id, producer_role(), content);
        if resolved.insert_outcome(id) is Ok {
            if s.has_active(device) {
                lemma_session_index(inserted, id, s.active_index(device));
            } else {
                lemma_session_index(inserted, id, s.sessions.len() as int);
            }
        }
    }
}

} // verus!
