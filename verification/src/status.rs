//! Failures of the track store and the status under which each reaches a
//! caller.

use vstd::prelude::*;

verus! {

/// What the record store reports when an operation on it fails.
#[derive(Debug, PartialEq, Eq)]
pub enum StorageFault {
    /// The record asked for does not exist.
    NotFound,
    /// An insert met a record with the same key.
    UniqueViolation,
    /// The backend reported an error, with its message.
    Database(String),
    /// The data could not be written in the stored form.
    Serialization,
    /// Any other failure.
    Other,
}

pub enum StorageFaultView {
    NotFound,
    UniqueViolation,
    Database(Seq<char>),
    Serialization,
    Other,
}

impl View for StorageFault {
    type V = StorageFaultView;

    open spec fn view(&self) -> StorageFaultView {
        match self {
            StorageFault::NotFound => StorageFaultView::NotFound,
            StorageFault::UniqueViolation => StorageFaultView::UniqueViolation,
            StorageFault::Database(message) => StorageFaultView::Database(message@),
            StorageFault::Serialization => StorageFaultView::Serialization,
            StorageFault::Other => StorageFaultView::Other,
        }
    }
}

/// Why an operation of the track store failed.
#[derive(Debug, PartialEq, Eq)]
pub enum StoreError {
    /// The track does not exist and could not be made.
    NotFound,
    /// The track was created by someone else in the meantime.
    Conflict,
    /// Data that the caller supplied cannot be stored.
    InvalidArgument,
    /// Data that the store itself obtained cannot be stored or read.
    Internal,
    /// The backend failed, with its message.
    Storage(String),
    /// An update failed part of the way and could not be undone: the change
    /// log and the track may disagree.
    Inconsistent,
}

pub enum StoreErrorView {
    NotFound,
    Conflict,
    InvalidArgument,
    Internal,
    Storage(Seq<char>),
    Inconsistent,
}

impl View for StoreError {
    type V = StoreErrorView;

    open spec fn view(&self) -> StoreErrorView {
        match self {
            StoreError::NotFound => StoreErrorView::NotFound,
            StoreError::Conflict => StoreErrorView::Conflict,
            StoreError::InvalidArgument => StoreErrorView::InvalidArgument,
            StoreError::Internal => StoreErrorView::Internal,
            StoreError::Storage(message) => StoreErrorView::Storage(message@),
            StoreError::Inconsistent => StoreErrorView::Inconsistent,
        }
    }
}

/// The message under which a failure without one of its own is reported.
pub const DATABASE_ERROR: &'static str = "database error";

/// The message under which data that cannot be stored is reported.
pub const CANNOT_SERIALIZE: &'static str = "Can't serialize to JSON";

/// The message under which an update that could not be undone is reported.
pub const LEFT_UNFINISHED: &'static str = "update left unfinished";

/// Who supplied the data that an operation was writing when it failed.
#[derive(Debug, Clone, Copy, PartialEq, Eq, Structural)]
pub enum Origin {
    /// The caller of the operation.
    Caller,
    /// The store itself: scraped or read back from storage.
    Store,
}

/// The error that a failure of the record store amounts to, given whose
/// data was being written.
pub open spec fn classified(failure: StorageFaultView, origin: Origin) -> StoreErrorView {
    match failure {
        StorageFaultView::NotFound => StoreErrorView::NotFound,
        StorageFaultView::UniqueViolation => StoreErrorView::Conflict,
        StorageFaultView::Database(message) => StoreErrorView::Storage(message),
        StorageFaultView::Serialization => match origin {
            Origin::Caller => StoreErrorView::InvalidArgument,
            Origin::Store => StoreErrorView::Internal,
        },
        StorageFaultView::Other => StoreErrorView::Storage(DATABASE_ERROR@),
    }
}

/// Classifies a failure of the record store.
pub fn classify(failure: StorageFault, origin: Origin) -> (error: StoreError)
    ensures
        error@ == classified(failure@, origin),
{
    match failure {
        StorageFault::NotFound => StoreError::NotFound,
        StorageFault::UniqueViolation => StoreError::Conflict,
        StorageFault::Database(message) => StoreError::Storage(message),
        StorageFault::Serialization => match origin {
            Origin::Caller => StoreError::InvalidArgument,
            Origin::Store => StoreError::Internal,
        },
        StorageFault::Other => StoreError::Storage(DATABASE_ERROR.to_owned()),
    }
}

/// The kinds of status under which a failure reaches a caller.
#[derive(Debug, Clone, Copy, PartialEq, Eq, Structural)]
pub enum Code {
    NotFound,
    AlreadyExists,
    InvalidArgument,
    Internal,
    Aborted,
    DataLoss,
}

/// A failure as a caller sees it.
#[derive(Debug, PartialEq, Eq)]
pub struct Status {
    pub code: Code,
    pub message: String,
}

pub struct StatusView {
    pub code: Code,
    pub message: Seq<char>,
}

impl View for Status {
    type V = StatusView;

    open spec fn view(&self) -> StatusView {
        StatusView { code: self.code, message: self.message@ }
    }
}

/// The status under which an error reaches a caller.
pub open spec fn status_of(error: StoreErrorView) -> StatusView {
    match error {
        StoreErrorView::NotFound => StatusView { code: Code::NotFound, message: Seq::empty() },
        StoreErrorView::Conflict => StatusView { code: Code::AlreadyExists, message: Seq::empty() },
        StoreErrorView::InvalidArgument => StatusView {
            code: Code::InvalidArgument,
            message: CANNOT_SERIALIZE@,
        },
        StoreErrorView::Internal => StatusView { code: Code::Internal, message: CANNOT_SERIALIZE@ },
        StoreErrorView::Storage(message) => StatusView { code: Code::Aborted, message },
        StoreErrorView::Inconsistent => StatusView {
            code: Code::DataLoss,
            message: LEFT_UNFINISHED@,
        },
    }
}

impl StoreError {
    /// The status under which this error reaches a caller.
    pub fn into_status(self) -> (status: Status)
        ensures
            status@ == status_of(self@),
    {
        match self {
            StoreError::NotFound => Status { code: Code::NotFound, message: String::new() },
            StoreError::Conflict => Status { code: Code::AlreadyExists, message: String::new() },
            StoreError::InvalidArgument => Status {
                code: Code::InvalidArgument,
                message: CANNOT_SERIALIZE.to_owned(),
            },
            StoreError::Internal => Status {
                code: Code::Internal,
                message: CANNOT_SERIALIZE.to_owned(),
            },
            StoreError::Storage(message) => Status { code: Code::Aborted, message },
            StoreError::Inconsistent => Status {
                code: Code::DataLoss,
                message: LEFT_UNFINISHED.to_owned(),
            },
        }
    }
}

} // verus!
