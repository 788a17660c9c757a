//! The validator: a decoded request is accepted when neither name is blank.

use vstd::prelude::*;
use vstd::std_specs::iter::IteratorSpec;
use crate::model::{ContactRequest, ContactRequestView, Field, ValidationError};

verus! {

/// The characters that trimming removes: those with the Unicode property
/// White_Space.
pub open spec fn is_space(c: char) -> bool {
    ||| ('\u{9}' <= c && c <= '\u{d}')
    ||| c == ' '
    ||| c == '\u{85}'
    ||| c == '\u{a0}'
    ||| c == '\u{1680}'
    ||| ('\u{2000}' <= c && c <= '\u{200a}')
    ||| c == '\u{2028}'
    ||| c == '\u{2029}'
    ||| c == '\u{202f}'
    ||| c == '\u{205f}'
    ||| c == '\u{3000}'
}

/// A text is blank when trimming leaves nothing of it: every character of it
/// is a space. The empty text is blank.
pub open spec fn is_blank(text: Seq<char>) -> bool {
    forall|i: int| 0 <= i < text.len() ==> is_space(#[trigger] text[i])
}

/// What validation gives: the first blank field is reported, the first name
/// before the last; a request without one passes unchanged.
pub open spec fn validation_of(request: ContactRequestView) -> Result<
    ContactRequestView,
    ValidationError,
> {
    if is_blank(request.first_name) {
        Err(ValidationError::EmptyField(Field::FirstName))
    } else if is_blank(request.last_name) {
        Err(ValidationError::EmptyField(Field::LastName))
    } else {
        Ok(request)
    }
}

/// A validator's result as contracts see it.
pub open spec fn validated_view(res: Result<ContactRequest, ValidationError>) -> Result<
    ContactRequestView,
    ValidationError,
> {
    match res {
        Ok(request) => Ok(request@),
        Err(error) => Err(error),
    }
}

/// Tells whether `c` is a space.
pub fn space_char(c: char) -> (res: bool)
    ensures
        res == is_space(c),
{
    ('\u{9}' <= c && c <= '\u{d}') || c == ' ' || c == '\u{85}' || c == '\u{a0}' || c
        == '\u{1680}' || ('\u{2000}' <= c && c <= '\u{200a}') || c == '\u{2028}' || c
        == '\u{2029}' || c == '\u{202f}' || c == '\u{205f}' || c == '\u{3000}'
}

/// Tells whether `text` is blank.
pub fn blank(text: &str) -> (res: bool)
    ensures
        res == is_blank(text@),
{
    let mut chars = text.chars();
    let ghost mut seen: int = 0;
    loop
        invariant
            chars.obeys_prophetic_iter_laws(),
            0 <= seen <= text@.len(),
            chars.remaining() == text@.subrange(seen, text@.len() as int),
            forall|i: int| 0 <= i < seen ==> is_space(#[trigger] text@[i]),
        decreases text@.len() - seen,
    {
        match chars.next() {
            None => {
                return true;
            },
            Some(c) => {
                assert(c == text@[seen]);
                if !space_char(c) {
                    return false;
                }
                proof {
                    seen = seen + 1;
                }
            },
        }
    }
}

/// Accepts a request whose two names are not blank, and names the first
/// blank field otherwise.
pub fn validate(request: ContactRequest) -> (res: Result<ContactRequest, ValidationError>)
    ensures
        validated_view(res) == validation_of(request@),
{
    if blank(request.first_name.as_str()) {
        Err(ValidationError::EmptyField(Field::FirstName))
    } else if blank(request.last_name.as_str()) {
        Err(ValidationError::EmptyField(Field::LastName))
    } else {
        Ok(request)
    }
}

/// Validation is idempotent: what it accepts it accepts again, unchanged.
pub proof fn lemma_validation_idempotent(request: ContactRequestView)
    ensures
        validation_of(request) matches Ok(accepted) ==> validation_of(accepted) == Ok::<
            ContactRequestView,
            ValidationError,
        >(accepted),
{
}

} // verus!
