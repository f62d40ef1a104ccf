use vstd::prelude::*;

verus! {

/// One stored contact-form submission.
///
/// `id` is the 128-bit value of the row's UUID and `created_at_micros` the
/// creation instant in microseconds since the Unix epoch (UTC).
#[derive(Clone, Debug)]
pub struct MessageLog {
    pub id: u128,
    pub name: String,
    pub email: String,
    pub message: String,
    pub created_at_micros: i64,
}

/// What an authorized dashboard read returns.
#[derive(Clone, Debug)]
pub struct DashboardData {
    pub visitor_count: i64,
    pub recent_messages: Vec<MessageLog>,
}

/// The body of a contact-form submission.
#[derive(Clone, Debug)]
pub struct ContactPayload {
    pub name: String,
    pub email: String,
    pub message: String,
}

impl ContactPayload {
    pub fn new(name: String, email: String, message: String) -> (r: ContactPayload)
        ensures
            r.name@ == name@,
            r.email@ == email@,
            r.message@ == message@,
    {
        ContactPayload { name, email, message }
    }
}

} // verus!
