//! Why a store operation did not take place.

use vstd::prelude::*;

verus! {

/// The failure of one store operation.
#[derive(Debug, PartialEq, Eq)]
pub enum StoreError {
    /// The row that the operation names does not exist.
    NotFound,
    /// The storage failed; the text says how.
    IO(String),
}

/// A `StoreError` as a mathematical value.
pub enum StoreErrorView {
    NotFound,
    IO(Seq<char>),
}

impl View for StoreError {
    type V = StoreErrorView;

    open spec fn view(&self) -> StoreErrorView {
        match self {
            StoreError::NotFound => StoreErrorView::NotFound,
            StoreError::IO(detail) => StoreErrorView::IO(detail@),
        }
    }
}

impl StoreErrorView {
    /// The text by which the error is reported.
    pub open spec fn describe(self) -> Seq<char> {
        match self {
            StoreErrorView::NotFound => "not found"@,
            StoreErrorView::IO(detail) => detail,
        }
    }
}

impl Clone for StoreError {
    fn clone(&self) -> (copy: Self)
        ensures
            copy@ == self@,
    {
        match self {
            StoreError::NotFound => StoreError::NotFound,
            StoreError::IO(detail) => StoreError::IO(detail.clone()),
        }
    }
}

impl StoreError {
    /// The text by which the error is reported.
    pub fn describe(&self) -> (text: String)
        ensures
            text@ == self@.describe(),
    {
        match self {
            StoreError::NotFound => String::from_str("not found"),
            StoreError::IO(detail) => detail.clone(),
        }
    }
}

/// The outcome of an operation that returns nothing, as a mathematical value.
pub open spec fn unit_outcome(r: Result<(), StoreError>) -> Result<(), StoreErrorView> {
    match r {
        Ok(_) => Ok(()),
        Err(e) => Err(e@),
    }
}

/// The outcome of an operation that returns a text, as a mathematical value.
pub open spec fn text_outcome(r: Result<String, StoreError>) -> Result<Seq<char>, StoreErrorView> {
    match r {
        Ok(t) => Ok(t@),
        Err(e) => Err(e@),
    }
}

} // verus!
