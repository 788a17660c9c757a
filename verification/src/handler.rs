//! The orchestrator of one invocation. It decides; the caller performs the
//! one store write in between and reports how it went.

use vstd::prelude::*;
use vstd::string::*;
use crate::decode::{body_view, decode, decode_spec};
use crate::ident::{is_canonical_id, new_id};
use crate::json::json_parse;
use crate::model::{
    ContactRecord,
    ContactRecordView,
    ContactRequest,
    ContactRequestView,
    DecodeError,
    DecodeErrorView,
    ErrorKind,
    Field,
    InvocationOutcome,
    InvocationOutcomeView,
    Response,
    StoreError,
    StoreErrorView,
    ValidationError,
};
use crate::respond::{body_of, field_name, response_of, to_response};
use crate::stage::Stage;
use crate::validate::{is_blank, validate, validation_of};

verus! {

/// What the caller is to do after the intake of a request: write the record
/// and report back, or answer at once.
#[derive(Clone, Debug, PartialEq, Eq)]
pub enum Step {
    Persist(ContactRecord),
    Respond(InvocationOutcome),
}

impl Step {
    /// The stage that the invocation is in when the step is handed out.
    pub open spec fn stage_of(self) -> Stage {
        match self {
            Step::Persist(_) => Stage::Persisting,
            Step::Respond(_) => Stage::Responding,
        }
    }

    /// The stage that the invocation is in when the step is handed out.
    pub fn stage(&self) -> (stage: Stage)
        ensures
            stage == self.stage_of(),
    {
        match self {
            Step::Persist(_) => Stage::Persisting,
            Step::Respond(_) => Stage::Responding,
        }
    }
}

/// The outcome that a decoding error ends in.
pub open spec fn decode_failure(error: DecodeErrorView) -> InvocationOutcomeView {
    match error {
        DecodeErrorView::Missing => InvocationOutcomeView::Failure(
            ErrorKind::MissingBody,
            "Missing request body"@,
        ),
        DecodeErrorView::Malformed(text) => InvocationOutcomeView::Failure(
            ErrorKind::MalformedBody,
            text,
        ),
    }
}

/// The outcome that a validation error ends in.
pub open spec fn validation_failure(error: ValidationError) -> InvocationOutcomeView {
    match error {
        ValidationError::EmptyField(field) => InvocationOutcomeView::Failure(
            ErrorKind::EmptyField(field),
            "Empty field: "@ + field_name(field),
        ),
    }
}

/// What the intake of a body gives: the accepted request, or the outcome of
/// the first stage that failed, decoding before validation.
pub open spec fn intake_spec(body: Option<Seq<u8>>) -> Result<
    ContactRequestView,
    InvocationOutcomeView,
> {
    match decode_spec(body) {
        Err(error) => Err(decode_failure(error)),
        Ok(request) => match validation_of(request) {
            Err(error) => Err(validation_failure(error)),
            Ok(accepted) => Ok(accepted),
        },
    }
}

/// An intake's result as contracts see it.
pub open spec fn intake_view(res: Result<ContactRequest, InvocationOutcome>) -> Result<
    ContactRequestView,
    InvocationOutcomeView,
> {
    match res {
        Ok(request) => Ok(request@),
        Err(outcome) => Err(outcome@),
    }
}

/// The record that a request and its identifier make.
pub open spec fn record_of(request: ContactRequestView, id: Seq<char>) -> ContactRecordView {
    ContactRecordView { id, first_name: request.first_name, last_name: request.last_name }
}

/// A record is fit for the store when its key has the canonical form of a
/// generated identifier and neither of its names is blank.
pub open spec fn is_storable(record: ContactRecordView) -> bool {
    &&& is_canonical_id(record.id)
    &&& !is_blank(record.first_name)
    &&& !is_blank(record.last_name)
}

/// A store write's result as contracts see it.
pub open spec fn written_view(written: Result<(), StoreError>) -> Result<(), StoreErrorView> {
    match written {
        Ok(_) => Ok(()),
        Err(error) => Err(error@),
    }
}

/// The outcome of an invocation whose record was handed to the store:
/// success where the write was acknowledged, and a store failure of the
/// error's class otherwise.
pub open spec fn conclusion_of(
    record: ContactRecordView,
    written: Result<(), StoreErrorView>,
) -> InvocationOutcomeView {
    match written {
        Ok(_) => InvocationOutcomeView::Success(record),
        Err(error) => InvocationOutcomeView::Failure(ErrorKind::Store(error.kind), error.detail),
    }
}

/// Classifies a decoding error.
pub fn outcome_of_decode_error(error: DecodeError) -> (outcome: InvocationOutcome)
    ensures
        outcome@ == decode_failure(error@),
{
    match error {
        DecodeError::Missing => InvocationOutcome::Failure(
            ErrorKind::MissingBody,
            String::from_str("Missing request body"),
        ),
        DecodeError::Malformed(text) => InvocationOutcome::Failure(ErrorKind::MalformedBody, text),
    }
}

/// Classifies a validation error.
pub fn outcome_of_validation_error(error: ValidationError) -> (outcome: InvocationOutcome)
    ensures
        outcome@ == validation_failure(error),
{
    match error {
        ValidationError::EmptyField(field) => {
            let mut text = String::from_str("Empty field: ");
            match field {
                Field::FirstName => text.append("firstName"),
                Field::LastName => text.append("lastName"),
            }
            InvocationOutcome::Failure(ErrorKind::EmptyField(field), text)
        },
    }
}

/// Decodes and validates the raw body. The first stage that fails decides
/// the outcome; nothing is generated or written for a body that fails.
pub fn intake(raw_body: Option<&[u8]>) -> (res: Result<ContactRequest, InvocationOutcome>)
    ensures
        intake_view(res) == intake_spec(body_view(raw_body)),
{
    match decode(raw_body) {
        Err(error) => Err(outcome_of_decode_error(error)),
        Ok(request) => match validate(request) {
            Err(error) => Err(outcome_of_validation_error(error)),
            Ok(accepted) => Ok(accepted),
        },
    }
}

/// Makes the record of an accepted request under the identifier `id`.
pub fn record_for(request: ContactRequest, id: String) -> (record: ContactRecord)
    ensures
        record@ == record_of(request@, id@),
{
    ContactRecord { id, first_name: request.first_name, last_name: request.last_name }
}

/// The first half of an invocation. A body that does not pass the intake is
/// answered at once with the intake's outcome. For one that passes, a fresh
/// identifier is drawn, once, and the record of the accepted request under
/// that identifier is to be written.
pub fn begin(raw_body: Option<&[u8]>) -> (step: Step)
    ensures
        match intake_spec(body_view(raw_body)) {
            Err(outcome) => step matches Step::Respond(given) && given@ == outcome,
            Ok(request) => step matches Step::Persist(record) && record@ == record_of(
                request,
                record.id@,
            ) && is_storable(record@),
        },
{
    match intake(raw_body) {
        Err(outcome) => Step::Respond(outcome),
        Ok(request) => Step::Persist(record_for(request, new_id())),
    }
}

/// The outcome of an invocation once the store has answered.
pub fn conclude(record: ContactRecord, written: Result<(), StoreError>) -> (outcome:
    InvocationOutcome)
    ensures
        outcome@ == conclusion_of(record@, written_view(written)),
{
    match written {
        Ok(_) => InvocationOutcome::Success(record),
        Err(error) => InvocationOutcome::Failure(ErrorKind::Store(error.kind), error.detail),
    }
}

/// The second half of an invocation: the response once the store has
/// answered.
pub fn finish(record: ContactRecord, written: Result<(), StoreError>) -> (res: Response)
    ensures
        res@ == response_of(conclusion_of(record@, written_view(written))),
{
    let outcome = conclude(record, written);
    to_response(&outcome)
}

/// A body whose document holds two names that are not blank passes the
/// intake, and once its record is written the response has status 200 and
/// carries the greeting with the two names.
pub proof fn lemma_valid_request_greeted(
    bytes: Seq<u8>,
    members: Map<Seq<char>, Seq<char>>,
    id: Seq<char>,
)
    requires
        json_parse(bytes) == Ok::<Map<Seq<char>, Seq<char>>, Seq<char>>(members),
        members.contains_key("first_name"@),
        members.contains_key("last_name"@),
        !is_blank(members["first_name"@]),
        !is_blank(members["last_name"@]),
    ensures
        intake_spec(Some(bytes)) matches Ok(request) && request.first_name
            == members["first_name"@] && request.last_name == members["last_name"@] && ({
            let response = response_of(conclusion_of(record_of(request, id), Ok(())));
            response.status == 200 && response.body == body_of(
                "Hello "@ + members["first_name"@] + " "@ + members["last_name"@] + "!"@,
            )
        }),
{
}

/// An invocation without a body is answered with status 400 and the message
/// that the body is missing.
pub proof fn lemma_absent_body_rejected()
    ensures
        intake_spec(None) matches Err(outcome) && response_of(outcome).status == 400
            && response_of(outcome).body == body_of("Missing request body"@),
{
}

/// A body that cannot be decoded, be it that its bytes are no JSON document
/// or that the document lacks one of the two string members, is answered
/// with status 400 and the message that parsing failed.
pub proof fn lemma_undecodable_body_rejected(bytes: Seq<u8>)
    requires
        decode_spec(Some(bytes)) is Err,
    ensures
        intake_spec(Some(bytes)) matches Err(outcome) && response_of(outcome).status == 400
            && response_of(outcome).body == body_of("Failed to parse body"@),
{
}

/// A body whose bytes are no JSON document is answered with status 400 and
/// the message that parsing failed.
pub proof fn lemma_unparsable_body_rejected(bytes: Seq<u8>)
    requires
        json_parse(bytes) is Err,
    ensures
        intake_spec(Some(bytes)) matches Err(outcome) && response_of(outcome).status == 400
            && response_of(outcome).body == body_of("Failed to parse body"@),
{
}

/// A decoded request with a blank name is answered with status 400 and a
/// message that names the field: the first name where that is blank, the
/// last name otherwise.
pub proof fn lemma_blank_field_rejected(bytes: Seq<u8>)
    requires
        decode_spec(Some(bytes)) matches Ok(request) && (is_blank(request.first_name) || is_blank(
            request.last_name,
        )),
    ensures
        intake_spec(Some(bytes)) matches Err(outcome) && response_of(outcome).status == 400
            && response_of(outcome).body == body_of(
            "Invalid field: "@ + field_name(
                if is_blank(decode_spec(Some(bytes))->Ok_0.first_name) {
                    Field::FirstName
                } else {
                    Field::LastName
                },
            ),
        ),
{
}

/// A failed store write is answered with status 500 and the same message,
/// whatever the record and whatever the error.
pub proof fn lemma_store_failure_is_500(record: ContactRecordView, error: StoreErrorView)
    ensures
        response_of(conclusion_of(record, Err(error))).status == 500,
        response_of(conclusion_of(record, Err(error))).body == body_of(
            "Failed to save contact"@,
        ),
{
}

/// The diagnostic text of a failure never reaches the client: two failures
/// of one kind get the same response.
pub proof fn lemma_diagnostic_not_echoed(kind: ErrorKind, text: Seq<char>, other: Seq<char>)
    ensures
        response_of(InvocationOutcomeView::Failure(kind, text)) == response_of(
            InvocationOutcomeView::Failure(kind, other),
        ),
{
}

} // verus!
