//! The response mapper: from the outcome of an invocation to its response.

use vstd::prelude::*;
use vstd::string::*;
use crate::json::{json_object_text, object_text};
use crate::model::{
    ContactRecordView,
    ErrorKind,
    Field,
    InvocationOutcome,
    InvocationOutcomeView,
    Response,
    ResponseView,
};

verus! {

/// The name by which a response speaks of a field.
pub open spec fn field_name(field: Field) -> Seq<char> {
    match field {
        Field::FirstName => "firstName"@,
        Field::LastName => "lastName"@,
    }
}

/// The greeting that acknowledges a stored record.
pub open spec fn greeting(record: ContactRecordView) -> Seq<char> {
    "Hello "@ + record.first_name + " "@ + record.last_name + "!"@
}

/// The status code of each outcome.
pub open spec fn status_of(outcome: InvocationOutcomeView) -> u16 {
    match outcome {
        InvocationOutcomeView::Success(_) => 200,
        InvocationOutcomeView::Failure(ErrorKind::MissingBody, _) => 400,
        InvocationOutcomeView::Failure(ErrorKind::MalformedBody, _) => 400,
        InvocationOutcomeView::Failure(ErrorKind::EmptyField(_), _) => 400,
        InvocationOutcomeView::Failure(ErrorKind::Store(_), _) => 500,
    }
}

/// The message that the client reads for each outcome. A failure's
/// diagnostic text has no part in it.
pub open spec fn message_of(outcome: InvocationOutcomeView) -> Seq<char> {
    match outcome {
        InvocationOutcomeView::Success(record) => greeting(record),
        InvocationOutcomeView::Failure(ErrorKind::MissingBody, _) => "Missing request body"@,
        InvocationOutcomeView::Failure(ErrorKind::MalformedBody, _) => "Failed to parse body"@,
        InvocationOutcomeView::Failure(ErrorKind::EmptyField(field), _) => "Invalid field: "@
            + field_name(field),
        InvocationOutcomeView::Failure(ErrorKind::Store(_), _) => "Failed to save contact"@,
    }
}

/// The body that carries `message`: the JSON object with the one member
/// `message`.
pub open spec fn body_of(message: Seq<char>) -> Seq<char> {
    json_object_text("message"@, message)
}

/// The response to each outcome.
pub open spec fn response_of(outcome: InvocationOutcomeView) -> ResponseView {
    ResponseView {
        status: status_of(outcome),
        content_type: "application/json"@,
        body: body_of(message_of(outcome)),
    }
}

/// The message for `outcome`, as text.
pub fn message_text(outcome: &InvocationOutcome) -> (message: String)
    ensures
        message@ == message_of(outcome@),
{
    match outcome {
        InvocationOutcome::Success(record) => {
            let mut message = String::from_str("Hello ");
            message.append(record.first_name.as_str());
            message.append(" ");
            message.append(record.last_name.as_str());
            message.append("!");
            message
        },
        InvocationOutcome::Failure(ErrorKind::MissingBody, _) => String::from_str(
            "Missing request body",
        ),
        InvocationOutcome::Failure(ErrorKind::MalformedBody, _) => String::from_str(
            "Failed to parse body",
        ),
        InvocationOutcome::Failure(ErrorKind::EmptyField(field), _) => {
            let mut message = String::from_str("Invalid field: ");
            match field {
                Field::FirstName => message.append("firstName"),
                Field::LastName => message.append("lastName"),
            }
            message
        },
        InvocationOutcome::Failure(ErrorKind::Store(_), _) => String::from_str(
            "Failed to save contact",
        ),
    }
}

/// The status code for `outcome`.
pub fn status_code(outcome: &InvocationOutcome) -> (status: u16)
    ensures
        status == status_of(outcome@),
{
    match outcome {
        InvocationOutcome::Success(_) => 200,
        InvocationOutcome::Failure(ErrorKind::Store(_), _) => 500,
        InvocationOutcome::Failure(_, _) => 400,
    }
}

/// Maps an outcome to its response: the status of its row, the JSON content
/// type, and the body that carries its message.
pub fn to_response(outcome: &InvocationOutcome) -> (res: Response)
    ensures
        res@ == response_of(outcome@),
{
    let message = message_text(outcome);
    Response {
        status: status_code(outcome),
        content_type: String::from_str("application/json"),
        body: object_text("message", message.as_str()),
    }
}

/// The mapping is a function of the outcome's value: two outcomes that are
/// equal in value get responses that are equal in every byte.
pub proof fn lemma_mapping_deterministic(a: InvocationOutcome, b: InvocationOutcome)
    requires
        a@ == b@,
    ensures
        response_of(a@) == response_of(b@),
{
}

} // verus!
