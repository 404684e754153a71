//! What can go wrong at the store, and what a resolution reports.

use vstd::prelude::*;

verus! {

/// Why a query brought nothing back.
#[derive(Debug, PartialEq, Eq)]
pub enum StoreFailure {
    /// The query ran and matched no row.
    RowNotFound,
    /// The driver or the connection failed; the text is the driver's own.
    Driver(String),
    /// Ancestor links were followed further than any legitimate chain goes.
    Cycle,
    /// The reply handed in does not answer the query that was asked.
    Protocol,
}

/// Mathematical view of a [`StoreFailure`].
pub enum StoreFailureView {
    RowNotFound,
    Driver(Seq<char>),
    Cycle,
    Protocol,
}

impl View for StoreFailure {
    type V = StoreFailureView;

    open spec fn view(&self) -> StoreFailureView {
        match self {
            StoreFailure::RowNotFound => StoreFailureView::RowNotFound,
            StoreFailure::Driver(detail) => StoreFailureView::Driver(detail@),
            StoreFailure::Cycle => StoreFailureView::Cycle,
            StoreFailure::Protocol => StoreFailureView::Protocol,
        }
    }
}

/// The failures of a resolution.
#[derive(Debug, PartialEq, Eq)]
pub enum UuidError {
    /// No record answers to the identifier, or its kind's structure is
    /// incomplete.
    NotFound,
    /// The stored kind tag is not one of the known tags.
    InvalidDiscriminator,
    /// The store failed; the failure is kept as it came.
    StoreError(StoreFailure),
}

/// Mathematical view of a [`UuidError`].
pub enum UuidErrorView {
    NotFound,
    InvalidDiscriminator,
    StoreError(StoreFailureView),
}

impl View for UuidError {
    type V = UuidErrorView;

    open spec fn view(&self) -> UuidErrorView {
        match self {
            UuidError::NotFound => UuidErrorView::NotFound,
            UuidError::InvalidDiscriminator => UuidErrorView::InvalidDiscriminator,
            UuidError::StoreError(failure) => UuidErrorView::StoreError(failure@),
        }
    }
}

/// How a failed fetch of a primary row is reported: a missing row means the
/// record does not exist, anything else is the store's failure.
pub open spec fn primary_row_error(failure: StoreFailureView) -> UuidErrorView {
    match failure {
        StoreFailureView::RowNotFound => UuidErrorView::NotFound,
        other => UuidErrorView::StoreError(other),
    }
}

/// The view of an outcome: of the value where there is one, of the error
/// where there is none.
pub open spec fn resolved<T: View>(outcome: Result<T, UuidError>) -> Result<T::V, UuidErrorView> {
    match outcome {
        Ok(value) => Ok(value@),
        Err(error) => Err(error@),
    }
}

impl UuidError {
    /// Reports the failure of a primary-row fetch.
    pub fn from_primary_row(failure: StoreFailure) -> (error: UuidError)
        ensures
            error@ == primary_row_error(failure@),
    {
        match failure {
            StoreFailure::RowNotFound => UuidError::NotFound,
            other => UuidError::StoreError(other),
        }
    }

    /// Wraps the failure of any other fetch.
    pub fn from_store(failure: StoreFailure) -> (error: UuidError)
        ensures
            error@ == UuidErrorView::StoreError(failure@),
    {
        UuidError::StoreError(failure)
    }

    /// A short description for logs.
    pub fn describe(&self) -> (text: &'static str)
        ensures
            text@ == (match self@ {
                UuidErrorView::NotFound => "not found"@,
                UuidErrorView::InvalidDiscriminator => "invalid discriminator"@,
                UuidErrorView::StoreError(_) => "store error"@,
            }),
    {
        match self {
            UuidError::NotFound => "not found",
            UuidError::InvalidDiscriminator => "invalid discriminator",
            UuidError::StoreError(_) => "store error",
        }
    }
}

} // verus!
