//! The data that flows through one invocation, and its mathematical views.

use vstd::prelude::*;

verus! {

/// A decoded request: the two name fields of the wire object.
#[derive(Clone, Debug, PartialEq, Eq)]
pub struct ContactRequest {
    pub first_name: String,
    pub last_name: String,
}

/// What a `ContactRequest` stands for in contracts.
pub struct ContactRequestView {
    pub first_name: Seq<char>,
    pub last_name: Seq<char>,
}

impl View for ContactRequest {
    type V = ContactRequestView;

    open spec fn view(&self) -> ContactRequestView {
        ContactRequestView { first_name: self.first_name@, last_name: self.last_name@ }
    }
}

/// The record that is written to the store: the request plus its key.
#[derive(Clone, Debug, PartialEq, Eq)]
pub struct ContactRecord {
    pub id: String,
    pub first_name: String,
    pub last_name: String,
}

/// What a `ContactRecord` stands for in contracts.
pub struct ContactRecordView {
    pub id: Seq<char>,
    pub first_name: Seq<char>,
    pub last_name: Seq<char>,
}

impl View for ContactRecord {
    type V = ContactRecordView;

    open spec fn view(&self) -> ContactRecordView {
        ContactRecordView {
            id: self.id@,
            first_name: self.first_name@,
            last_name: self.last_name@,
        }
    }
}

/// Why a body could not be decoded. `Malformed` carries the diagnostic text,
/// which is meant for the operator's log and never for the client.
#[derive(Clone, Debug, PartialEq, Eq)]
pub enum DecodeError {
    Missing,
    Malformed(String),
}

/// What a `DecodeError` stands for in contracts.
pub enum DecodeErrorView {
    Missing,
    Malformed(Seq<char>),
}

impl View for DecodeError {
    type V = DecodeErrorView;

    open spec fn view(&self) -> DecodeErrorView {
        match self {
            DecodeError::Missing => DecodeErrorView::Missing,
            DecodeError::Malformed(text) => DecodeErrorView::Malformed(text@),
        }
    }
}

/// The two fields of a request, by which a validation error names its culprit.
#[derive(Clone, Copy, Debug, PartialEq, Eq, Structural)]
pub enum Field {
    FirstName,
    LastName,
}

/// Why a decoded request was rejected.
#[derive(Clone, Copy, Debug, PartialEq, Eq, Structural)]
pub enum ValidationError {
    EmptyField(Field),
}

/// The classes of failure that a store write can end in.
#[derive(Clone, Copy, Debug, PartialEq, Eq, Structural)]
pub enum StoreErrorKind {
    Unavailable,
    Unauthorized,
    Timeout,
    Unknown,
}

/// A failed store write: its class, and the backend's text for the log.
#[derive(Clone, Debug, PartialEq, Eq)]
pub struct StoreError {
    pub kind: StoreErrorKind,
    pub detail: String,
}

/// What a `StoreError` stands for in contracts.
pub struct StoreErrorView {
    pub kind: StoreErrorKind,
    pub detail: Seq<char>,
}

impl View for StoreError {
    type V = StoreErrorView;

    open spec fn view(&self) -> StoreErrorView {
        StoreErrorView { kind: self.kind, detail: self.detail@ }
    }
}

/// Every way in which an invocation can fail, one per row of the response table.
#[derive(Clone, Copy, Debug, PartialEq, Eq, Structural)]
pub enum ErrorKind {
    MissingBody,
    MalformedBody,
    EmptyField(Field),
    Store(StoreErrorKind),
}

/// How an invocation ended. A failure carries its kind and the diagnostic
/// text for the log.
#[derive(Clone, Debug, PartialEq, Eq)]
pub enum InvocationOutcome {
    Success(ContactRecord),
    Failure(ErrorKind, String),
}

/// What an `InvocationOutcome` stands for in contracts.
pub enum InvocationOutcomeView {
    Success(ContactRecordView),
    Failure(ErrorKind, Seq<char>),
}

impl View for InvocationOutcome {
    type V = InvocationOutcomeView;

    open spec fn view(&self) -> InvocationOutcomeView {
        match self {
            InvocationOutcome::Success(record) => InvocationOutcomeView::Success(record@),
            InvocationOutcome::Failure(kind, text) => InvocationOutcomeView::Failure(*kind, text@),
        }
    }
}

/// A transport-level response: status code, content type and body text.
#[derive(Clone, Debug, PartialEq, Eq)]
pub struct Response {
    pub status: u16,
    pub content_type: String,
    pub body: String,
}

/// What a `Response` stands for in contracts.
pub struct ResponseView {
    pub status: u16,
    pub content_type: Seq<char>,
    pub body: Seq<char>,
}

impl View for Response {
    type V = ResponseView;

    open spec fn view(&self) -> ResponseView {
        ResponseView {
            status: self.status,
            content_type: self.content_type@,
            body: self.body@,
        }
    }
}

} // verus!
