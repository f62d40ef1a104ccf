use crate::state::{ContactPayload, DashboardData, MessageLog};
use crate::text::{decimal, decimal_text, same_text, trim, trimmed};
use crate::validation::{payload_valid, violations, ValidationErrors};
use vstd::prelude::*;

verus! {

/// The request header that carries the dashboard's shared secret.
pub const MAGIC_HEADER: &'static str = "x-magic-key";

/// The shared secret that opens the dashboard.
pub const MAGIC_KEY: &'static str = "open-sesame";

/// The preflight method, which does not count as a visit.
pub const OPTIONS_METHOD: &'static str = "OPTIONS";

/// How many of the newest messages a dashboard read returns.
pub const RECENT_LIMIT: usize = 50;

/// The success text of an accepted contact submission.
pub const CONTACT_OK_TEXT: &'static str = "Message received successfully";

/// The characters of the shared secret.
pub open spec fn magic_key() -> Seq<char> {
    MAGIC_KEY@
}

/// The characters of the preflight method.
pub open spec fn options_method() -> Seq<char> {
    OPTIONS_METHOD@
}

/// The status of a request that a handler refused or could not serve.
#[derive(Clone, Copy, Debug, PartialEq, Eq, Structural)]
pub enum StatusCode {
    BadRequest,
    NotFound,
    InternalServerError,
}

impl StatusCode {
    pub open spec fn code_spec(self) -> u16 {
        match self {
            StatusCode::BadRequest => 400,
            StatusCode::NotFound => 404,
            StatusCode::InternalServerError => 500,
        }
    }

    /// The numeric HTTP status.
    pub fn code(&self) -> (r: u16)
        ensures
            r == self.code_spec(),
    {
        match self {
            StatusCode::BadRequest => 400,
            StatusCode::NotFound => 404,
            StatusCode::InternalServerError => 500,
        }
    }
}

/// A failed read or write of the store, as reported by the database layer.
#[derive(Clone, Debug)]
pub struct StoreError {
    pub detail: String,
}

/// The JSON reply to an accepted contact submission.
#[derive(Clone, Debug)]
pub struct ContactReply {
    pub success: bool,
    pub message: String,
}

/// The row to append to the message log for an accepted submission.
#[derive(Clone, Debug)]
pub struct NewMessage {
    pub name: String,
    pub email: String,
    pub message: String,
}

/// The reads that an authorized dashboard request asks of the store.
#[derive(Clone, Copy, Debug, PartialEq, Eq, Structural)]
pub struct DashboardQuery {
    /// How many messages, newest first.
    pub message_limit: usize,
}

/// Whether a request with this method counts as a visit: every method but the
/// `OPTIONS` preflight does.
pub fn track_visitor(method: &str) -> (r: bool)
    ensures
        r == (method@ != options_method()),
{
    !same_text(method, OPTIONS_METHOD)
}

/// The body of a health reply: the time since the Unix epoch, in
/// nanoseconds, in decimal.
pub fn health_handler(since_epoch_nanos: u128) -> (r: String)
    ensures
        r@ == decimal(since_epoch_nanos as nat),
{
    decimal_text(since_epoch_nanos)
}

/// The characters of a header value, if one was sent.
pub open spec fn header_view(header: Option<&str>) -> Option<Seq<char>> {
    match header {
        Some(v) => Some(v@),
        None => None,
    }
}

/// Whether the header value, if any, equals the shared secret once trimmed.
pub open spec fn key_accepted(header: Option<Seq<char>>) -> bool {
    header matches Some(v) && trimmed(v) == magic_key()
}

/// Authorizes a dashboard request: a key header equal to the shared secret
/// once trimmed admits it; anything else is answered with not-found, so that
/// the route stays hidden.
pub fn dashboard_handler(header: Option<&str>) -> (r: Result<DashboardQuery, StatusCode>)
    ensures
        r == (if key_accepted(header_view(header)) {
            Ok::<DashboardQuery, StatusCode>(DashboardQuery { message_limit: RECENT_LIMIT })
        } else {
            Err::<DashboardQuery, StatusCode>(StatusCode::NotFound)
        }),
{
    match header {
        Some(v) => {
            if same_text(trim(v), MAGIC_KEY) {
                Ok(DashboardQuery { message_limit: RECENT_LIMIT })
            } else {
                Err(StatusCode::NotFound)
            }
        },
        None => Err(StatusCode::NotFound),
    }
}

/// The visitor count that a dashboard shows for the result of reading the
/// counter row: its value, or zero when the row is absent or the read failed.
pub open spec fn count_shown(read: Result<Option<i64>, StoreError>) -> i64 {
    match read {
        Ok(Some(c)) => c,
        _ => 0,
    }
}

/// The messages that a dashboard shows for the result of reading the log:
/// at most `limit` of the rows as they came, or none when the read failed.
pub open spec fn messages_shown(read: Result<Vec<MessageLog>, StoreError>, limit: usize) -> Seq<
    MessageLog,
> {
    match read {
        Ok(rows) => if rows@.len() <= limit {
            rows@
        } else {
            rows@.take(limit as int)
        },
        Err(_) => seq![],
    }
}

/// Composes the dashboard from the two reads. A failed read degrades to an
/// empty value instead of failing the request.
pub fn dashboard_data(
    query: &DashboardQuery,
    count_read: Result<Option<i64>, StoreError>,
    messages_read: Result<Vec<MessageLog>, StoreError>,
) -> (r: DashboardData)
    ensures
        r.visitor_count == count_shown(count_read),
        r.recent_messages@ == messages_shown(messages_read, query.message_limit),
{
    let visitor_count = match count_read {
        Ok(Some(c)) => c,
        Ok(None) => 0,
        Err(_) => 0,
    };
    let recent_messages = match messages_read {
        Ok(rows) => {
            let mut rows = rows;
            rows.truncate(query.message_limit);
            rows
        },
        Err(_) => Vec::new(),
    };
    DashboardData { visitor_count, recent_messages }
}

/// The first step of a contact submission: a valid payload becomes the row
/// to store; an invalid one is refused as a bad request, with the broken
/// constraints, and nothing is stored.
pub fn contact_handler(payload: &ContactPayload) -> (r: Result<NewMessage, (StatusCode, ValidationErrors)>)
    ensures
        r is Ok <==> payload_valid(*payload),
        r matches Ok(m) ==> m.name@ == payload.name@ && m.email@ == payload.email@
            && m.message@ == payload.message@,
        r matches Err(e) ==> e.0 == StatusCode::BadRequest && e.1.errors@ == violations(*payload),
{
    match payload.validate() {
        Ok(()) => Ok(
            NewMessage {
                name: payload.name.clone(),
                email: payload.email.clone(),
                message: payload.message.clone(),
            },
        ),
        Err(errors) => Err((StatusCode::BadRequest, errors)),
    }
}

/// The last step of a contact submission, from the outcome of storing the
/// row: success, or a server error with no retry.
pub fn contact_reply(stored: Result<(), StoreError>) -> (r: Result<ContactReply, StatusCode>)
    ensures
        stored is Ok ==> (r matches Ok(reply) && reply.success
            && reply.message@ == contact_ok_text()),
        stored is Err ==> r == Err::<ContactReply, StatusCode>(StatusCode::InternalServerError),
{
    match stored {
        Ok(()) => {
            Ok(ContactReply { success: true, message: CONTACT_OK_TEXT.to_owned() })
        },
        Err(_) => Err(StatusCode::InternalServerError),
    }
}

/// The text of the reply to an accepted contact submission.
pub open spec fn contact_ok_text() -> Seq<char> {
    CONTACT_OK_TEXT@
}

} // verus!
