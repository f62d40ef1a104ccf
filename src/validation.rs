use crate::state::ContactPayload;
use validator::{ValidateEmail, ValidateLength};
use vstd::prelude::*;

verus! {

/// Longest accepted sender name, in characters.
pub const NAME_MAX: u64 = 100;

/// Longest accepted sender email, in characters.
pub const EMAIL_MAX: u64 = 255;

/// Longest accepted message body, in characters.
pub const MESSAGE_MAX: u64 = 5000;

/// One broken constraint of a contact payload.
#[derive(Clone, Copy, Debug, PartialEq, Eq, Structural)]
pub enum FieldError {
    /// The name is empty or longer than `NAME_MAX` characters.
    NameLength,
    /// The email is not a syntactically valid address.
    EmailFormat,
    /// The email is longer than `EMAIL_MAX` characters.
    EmailLength,
    /// The message is empty or longer than `MESSAGE_MAX` characters.
    MessageLength,
}

/// Every constraint that a payload broke, in field order.
#[derive(Clone, Debug)]
pub struct ValidationErrors {
    pub errors: Vec<FieldError>,
}

/// Whether `s` is an address that the email syntax check accepts.
pub uninterp spec fn email_ok_of(s: Seq<char>) -> bool;

/// Whether the character count of `s` lies in `[lo, hi]`.
pub open spec fn length_in(s: Seq<char>, lo: int, hi: int) -> bool {
    lo <= s.len() <= hi
}

pub open spec fn name_ok(p: ContactPayload) -> bool {
    length_in(p.name@, 1, NAME_MAX as int)
}

pub open spec fn email_format_ok(p: ContactPayload) -> bool {
    email_ok_of(p.email@)
}

pub open spec fn email_length_ok(p: ContactPayload) -> bool {
    p.email@.len() <= EMAIL_MAX
}

pub open spec fn message_ok(p: ContactPayload) -> bool {
    length_in(p.message@, 1, MESSAGE_MAX as int)
}

/// A payload that breaks no constraint.
pub open spec fn payload_valid(p: ContactPayload) -> bool {
    name_ok(p) && email_format_ok(p) && email_length_ok(p) && message_ok(p)
}

/// The constraints that `p` breaks, in field order.
pub open spec fn violations(p: ContactPayload) -> Seq<FieldError> {
    (if name_ok(p) { seq![] } else { seq![FieldError::NameLength] })
        + (if email_format_ok(p) { seq![] } else { seq![FieldError::EmailFormat] })
        + (if email_length_ok(p) { seq![] } else { seq![FieldError::EmailLength] })
        + (if message_ok(p) { seq![] } else { seq![FieldError::MessageLength] })
}

/// Relies on validator's `ValidateLength::validate_length` on a `String`: the
/// length is the number of characters, checked against the bounds given.
#[verifier::external_body]
fn length_within(s: &String, min: Option<u64>, max: Option<u64>) -> (r: bool)
    ensures
        r == ((min is None || min->0 <= s@.len()) && (max is None || s@.len() <= max->0)),
{
    s.validate_length(min, max, None)
}

/// Relies on validator's `ValidateEmail::validate_email` on a `String`: the
/// verdict depends on the text alone, and an empty text or one without `@` is
/// refused.
#[verifier::external_body]
fn email_syntax_ok(s: &String) -> (r: bool)
    ensures
        r == email_ok_of(s@),
        s@.len() == 0 ==> !r,
        (forall|i: int| 0 <= i < s@.len() ==> s@[i] != '@') ==> !r,
{
    s.validate_email()
}

impl ValidationErrors {
    /// Whether no constraint was broken.
    pub fn is_empty(&self) -> (r: bool)
        ensures
            r == (self.errors@.len() == 0),
    {
        self.errors.len() == 0
    }
}

impl ContactPayload {
    /// Checks every field constraint; on failure lists each broken one.
    pub fn validate(&self) -> (r: Result<(), ValidationErrors>)
        ensures
            r is Ok <==> payload_valid(*self),
            r matches Err(e) ==> e.errors@ == violations(*self),
    {
        let mut errors: Vec<FieldError> = Vec::new();
        if !length_within(&self.name, Some(1), Some(NAME_MAX)) {
            errors.push(FieldError::NameLength);
        }
        if !email_syntax_ok(&self.email) {
            errors.push(FieldError::EmailFormat);
        }
        if !length_within(&self.email, None, Some(EMAIL_MAX)) {
            errors.push(FieldError::EmailLength);
        }
        if !length_within(&self.message, Some(1), Some(MESSAGE_MAX)) {
            errors.push(FieldError::MessageLength);
        }
        assert(errors@ =~= violations(*self));
        if errors.len() == 0 {
            Ok(())
        } else {
            Err(ValidationErrors { errors })
        }
    }
}

} // verus!
