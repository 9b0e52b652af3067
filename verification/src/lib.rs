//! Verified core of the Qwiz quiz service: password rules and hashing,
//! the live-quiz state machine, question ordering, the account cache,
//! media upload planning and the small decisions behind each HTTP route.

pub mod account;
pub mod assignment;
pub mod class;
pub mod crypto;
pub mod live;
pub mod media;
pub mod question;
pub mod qwiz;
pub mod route;
pub mod text;
pub mod vote;

use vstd::prelude::*;

verus! {

/// Prefix under which every route of the service is mounted.
pub const BASE_URL: &'static str = "/api";

/// An HTTP status, by its numeric code.
#[derive(Clone, Copy, Debug, PartialEq, Eq, Structural)]
pub struct Status {
    pub code: u16,
}

/// What the service distinguishes among database failures.
#[derive(Clone, Copy, Debug, PartialEq, Eq, Structural)]
pub enum DbErrorKind {
    /// The database refused the statement (a constraint, a bad value).
    Database,
    /// A query that must return a row returned none.
    RowNotFound,
    /// Anything else: the connection, the protocol, decoding.
    Other,
}

/// A database failure as the service sees it: its kind and its message.
#[derive(Debug)]
pub struct DbError {
    pub kind: DbErrorKind,
    pub message: String,
}

/// The status an expected database failure is answered with.
pub open spec fn spec_db_err_to_status(kind: DbErrorKind, status: Status) -> Status {
    match kind {
        DbErrorKind::Database | DbErrorKind::RowNotFound => status,
        DbErrorKind::Other => Status { code: 500 },
    }
}

/// Answers a refused statement or a missing row with `status`, and any
/// other failure with 500 Internal Server Error (which the caller logs).
pub fn db_err_to_status(e: &DbError, status: Status) -> (r: Status)
    ensures
        r == spec_db_err_to_status(e.kind, status),
{
    match e.kind {
        DbErrorKind::Database | DbErrorKind::RowNotFound => status,
        DbErrorKind::Other => Status { code: 500 },
    }
}

/// A flag that reads a missing value as `false`.
#[derive(Clone, Copy, Debug, PartialEq, Eq, Structural)]
pub struct OptBool(pub bool);

impl From<bool> for OptBool {
    fn from(value: bool) -> (r: Self) {
        OptBool(value)
    }
}

impl vstd::std_specs::convert::FromSpecImpl<bool> for OptBool {
    open spec fn obeys_from_spec() -> bool {
        true
    }

    open spec fn from_spec(v: bool) -> Self {
        OptBool(v)
    }
}

impl From<Option<bool>> for OptBool {
    fn from(value: Option<bool>) -> (r: Self) {
        match value {
            Some(b) => OptBool(b),
            None => OptBool(false),
        }
    }
}

impl vstd::std_specs::convert::FromSpecImpl<Option<bool>> for OptBool {
    open spec fn obeys_from_spec() -> bool {
        true
    }

    open spec fn from_spec(v: Option<bool>) -> Self {
        match v {
            Some(b) => OptBool(b),
            None => OptBool(false),
        }
    }
}

impl core::ops::Deref for OptBool {
    type Target = bool;

    fn deref(&self) -> (r: &bool)
        ensures
            *r == self.0,
    {
        &self.0
    }
}

/// The text that `root_info` answers with: the route groups of the service.
pub const ROOT_INFO: &'static str = r#"
/account
/qwiz
/question
/class
/vote
/media
"#;

/// Lists the route groups of the service.
pub fn root_info() -> (r: &'static str)
    ensures
        r@ == ROOT_INFO@,
{
    ROOT_INFO
}

/// The body of any error answer: the status code in decimal.
pub fn default_catcher(status: Status) -> (r: String)
    ensures
        r@ == text::decimal(status.code as int),
{
    text::decimal_string(status.code as i64)
}

/// The elements of `v`, as a queue in the same order.
pub fn to_queue<T>(v: Vec<T>) -> (r: std::collections::VecDeque<T>)
    ensures
        r@ == v@,
{
    let ghost all = v@;
    let mut rest = v;
    let mut queue: std::collections::VecDeque<T> = std::collections::VecDeque::new();
    while rest.len() > 0
        invariant
            rest@.len() <= all.len(),
            rest@ == all.subrange(0, rest@.len() as int),
            queue@ == all.subrange(rest@.len() as int, all.len() as int),
        decreases rest@.len(),
    {
        let x = rest.pop().unwrap();
        queue.push_front(x);
        assert(queue@ =~= all.subrange(rest@.len() as int, all.len() as int));
    }
    assert(queue@ =~= all);
    queue
}

} // verus!
