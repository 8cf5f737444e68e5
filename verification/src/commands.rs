//! The commands a frontend invokes. Each answers with its payload or with
//! the text of an error; the typed errors end here.

use crate::error::{StoreError, StoreErrorView};
use crate::intake::{after_intake, file_fragment, intake_outcome, IntakeError};
use crate::records::{message_views, ChatMessage, Fragment};
use crate::store::Store;
use vstd::prelude::*;

verus! {

/// The number of messages that a fetch returns at most.
pub const RECENT_LIMIT: usize = 50;

/// The text that answers a command when there is no store to serve it.
pub open spec fn unavailable_text() -> Seq<char> {
    "Database not initialized"@
}

/// The text that reports a fetch that failed.
pub open spec fn fetch_failure_text(e: StoreErrorView) -> Seq<char> {
    "Database error: "@ + e.describe()
}

/// The text that reports a deletion that failed.
pub open spec fn delete_failure_text(e: StoreErrorView) -> Seq<char> {
    "Failed to delete message: "@ + e.describe()
}

/// The answer of any command when there is no store to serve it.
pub fn unavailable() -> (text: String)
    ensures
        text@ == unavailable_text(),
{
    String::from_str("Database not initialized")
}

/// What the deletion of `rows_affected` rows amounts to: success for one or
/// more, `NotFound` for none.
pub fn rows_deleted(rows_affected: u64) -> (outcome: Result<(), StoreError>)
    ensures
        match outcome {
            Ok(_) => rows_affected > 0,
            Err(e) => rows_affected == 0 && e@ == StoreErrorView::NotFound,
        },
{
    if rows_affected > 0 {
        Ok(())
    } else {
        Err(StoreError::NotFound)
    }
}

/// Answers a fetch: the rows as they came, or the text of the failure.
pub fn report_fetch<T>(outcome: Result<Vec<T>, StoreError>) -> (reply: Result<Vec<T>, String>)
    ensures
        match outcome {
            Ok(rows) => reply == Ok::<Vec<T>, String>(rows),
            Err(e) => reply matches Err(text) && text@ == fetch_failure_text(e@),
        },
{
    match outcome {
        Ok(rows) => Ok(rows),
        Err(e) => {
            let detail = e.describe();
            Err(String::from_str("Database error: ").concat(detail.as_str()))
        },
    }
}

/// Answers an intake: the processed fragment, or the text of the failure.
pub fn report_intake(outcome: Result<Fragment, IntakeError>) -> (reply: Result<Fragment, String>)
    ensures
        match outcome {
            Ok(fragment) => reply == Ok::<Fragment, String>(fragment),
            Err(e) => reply matches Err(text) && text@ == e@.message(),
        },
{
    match outcome {
        Ok(fragment) => Ok(fragment),
        Err(e) => Err(e.message()),
    }
}

/// Answers a deletion. A message that was not there is no failure towards
/// the caller; only a failure of the storage is reported.
pub fn report_delete(outcome: Result<(), StoreError>) -> (reply: Result<(), String>)
    ensures
        match outcome {
            Ok(_) => reply is Ok,
            Err(e) => match e@ {
                StoreErrorView::NotFound => reply is Ok,
                StoreErrorView::IO(_) => reply matches Err(text) && text@ == delete_failure_text(
                    e@,
                ),
            },
        },
{
    match outcome {
        Ok(_) => Ok(()),
        Err(StoreError::NotFound) => Ok(()),
        Err(e) => {
            let detail = e.describe();
            Err(String::from_str("Failed to delete message: ").concat(detail.as_str()))
        },
    }
}

/// Returns the fifty newest messages of all sessions, newest first.
pub fn fetch_messages(store: &Store) -> (reply: Result<Vec<ChatMessage>, String>)
    requires
        store.wf(),
    ensures
        reply matches Ok(rows) && {
            &&& message_views(rows@) == store@.recent(50)
            &&& rows.len() <= 50
            &&& forall|i: int, j: int|
                0 <= i < j < rows.len() ==> (#[trigger] rows[i]).created_at > (
                #[trigger] rows[j]).created_at
        },
{
    report_fetch(Ok(store.fetch_recent_messages(RECENT_LIMIT)))
}

/// Files a fragment and returns it marked as processed, or the text of the
/// failure.
pub fn process_fragment(store: &mut Store, fragment: Fragment) -> (reply: Result<
    Fragment,
    String,
>)
    requires
        old(store).wf(),
    ensures
        final(store).wf(),
        final(store)@ == after_intake(old(store)@, fragment@.content),
        match intake_outcome(old(store)@, fragment@.content) {
            Ok(_) => reply matches Ok(filed) && filed@ == fragment@.processed(),
            Err(e) => reply matches Err(text) && text@ == e.message(),
        },
{
    report_intake(file_fragment(store, fragment))
}

/// Deletes the message with this identifier. Succeeds also where there is
/// no such message, and then changes nothing.
pub fn delete_message(store: &mut Store, message_id: String) -> (reply: Result<(), String>)
    requires
        old(store).wf(),
    ensures
        final(store).wf(),
        final(store)@ == old(store)@.after_delete(message_id@),
        reply is Ok,
{
    let outcome = store.delete_message(message_id.as_str());
    report_delete(outcome)
}

} // verus!
