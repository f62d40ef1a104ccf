use crate::handlers::{count_shown, messages_shown, StoreError, RECENT_LIMIT};
use crate::state::{ContactPayload, MessageLog};
use crate::validation::{
    email_format_ok, payload_valid, violations, FieldError, EMAIL_MAX, MESSAGE_MAX, NAME_MAX,
};
use vstd::prelude::*;

verus! {

/// A payload that meets every constraint has no violation, so a submission
/// of it is accepted.
pub proof fn law_valid_payload_has_no_violation(p: ContactPayload)
    requires
        1 <= p.name@.len() <= NAME_MAX,
        email_format_ok(p),
        p.email@.len() <= EMAIL_MAX,
        1 <= p.message@.len() <= MESSAGE_MAX,
    ensures
        payload_valid(p),
        violations(p) =~= Seq::<FieldError>::empty(),
{
}

/// A payload that breaks a single constraint (an empty name, a malformed
/// email, or a message over the limit) is invalid, and the broken constraint
/// is the one reported; such a submission is refused before anything is
/// stored.
pub proof fn law_single_violation_refused(p: ContactPayload)
    requires
        p.name@.len() == 0 || !email_format_ok(p) || p.message@.len() > MESSAGE_MAX,
    ensures
        !payload_valid(p),
        violations(p).len() > 0,
        p.name@.len() == 0 ==> violations(p)[0] == FieldError::NameLength,
        p.name@.len() == 0 || p.name@.len() > NAME_MAX ==> violations(p).contains(
            FieldError::NameLength,
        ),
        !email_format_ok(p) ==> violations(p).contains(FieldError::EmailFormat),
        p.message@.len() > MESSAGE_MAX ==> violations(p).contains(FieldError::MessageLength),
{
    let v = violations(p);
    if p.name@.len() == 0 || p.name@.len() > NAME_MAX {
        assert(v[0] == FieldError::NameLength);
    }
    if !email_format_ok(p) {
        let k: int = if v.len() > 0 && v[0] == FieldError::NameLength { 1 } else { 0 };
        assert(v[k] == FieldError::EmailFormat);
    }
    if p.message@.len() > MESSAGE_MAX {
        assert(v[v.len() - 1] == FieldError::MessageLength);
    }
}

/// The dashboard shows the rows of the log read in the order they came
/// (newest first), cut at the limit: the newest row, whenever there is one,
/// is shown first, and none is reordered or replaced.
pub proof fn law_dashboard_keeps_newest_first(rows: Vec<MessageLog>, limit: usize)
    requires
        limit > 0,
    ensures
        messages_shown(Ok::<Vec<MessageLog>, StoreError>(rows), limit).len() == if rows@.len()
            <= limit {
            rows@.len()
        } else {
            limit as nat
        },
        forall|i: int|
            0 <= i < messages_shown(Ok::<Vec<MessageLog>, StoreError>(rows), limit).len()
                ==> #[trigger] messages_shown(Ok::<Vec<MessageLog>, StoreError>(rows), limit)[i]
                == rows@[i],
        rows@.len() > 0 ==> messages_shown(Ok::<Vec<MessageLog>, StoreError>(rows), limit)[0]
            == rows@[0],
{
}

/// With no visit counted and no message stored, the dashboard shows a count
/// of zero and no message, whether the counter row is absent or holds zero.
pub proof fn law_empty_dashboard(count_row: Option<i64>, rows: Vec<MessageLog>)
    requires
        count_row is None || count_row == Some(0i64),
        rows@.len() == 0,
    ensures
        count_shown(Ok::<Option<i64>, StoreError>(count_row)) == 0,
        messages_shown(Ok::<Vec<MessageLog>, StoreError>(rows), RECENT_LIMIT).len() == 0,
{
}

} // verus!
