use crate::assignment::Assignment;
use crate::route::{Method, RouteInfo};
use vstd::prelude::*;

verus! {

/// The assignment routes, in the order they are mounted.
pub open spec fn assignment_routes() -> Seq<RouteInfo> {
    seq![
        RouteInfo { method: Method::Post, path: "/account/<id>/assignments", name: "get_account_assignments" },
        RouteInfo { method: Method::Post, path: "/class/<id>/assignments", name: "create_assignment" },
    ]
}

/// The assignment routes.
pub fn all() -> (r: Vec<RouteInfo>)
    ensures
        r@ == assignment_routes(),
{
    let mut r: Vec<RouteInfo> = Vec::new();
    r.push(RouteInfo { method: Method::Post, path: "/account/<id>/assignments", name: "get_account_assignments" });
    r.push(RouteInfo { method: Method::Post, path: "/class/<id>/assignments", name: "create_assignment" });
    assert(r@ =~= assignment_routes());
    r
}

/// What the service answers about an assignment. Times are seconds since
/// the Unix epoch.
#[derive(Debug)]
pub struct GetAssignmentData {
    pub id: i32,
    pub qwiz_id: i32,
    pub qwiz_name: String,
    pub class_id: i32,
    pub open_time: Option<i64>,
    pub close_time: Option<i64>,
    pub completed: bool,
}

/// Whole seconds of a time in milliseconds, rounded down.
pub fn seconds_of(ms: i64) -> (r: i64)
    ensures
        r == ms / 1000,
{
    if ms >= 0 {
        let u = ms as u64;
        (u / 1000) as i64
    } else {
        let u = (-(ms + 1)) as u64;
        let q = (u / 1000) as i64;
        assert((-(ms + 1)) / 1000 == q);
        assert(ms / 1000 == -q - 1) by (nonlinear_arith)
            requires
                q == (-(ms + 1)) / 1000,
                ms < 0,
        ;
        -q - 1
    }
}

/// A time in seconds, if present.
pub open spec fn seconds_opt(t: Option<i64>) -> Option<i64> {
    match t {
        Some(ms) => Some((ms / 1000) as i64),
        None => None,
    }
}

fn seconds_of_opt(t: Option<i64>) -> (r: Option<i64>)
    ensures
        r == seconds_opt(t),
{
    match t {
        Some(ms) => Some(seconds_of(ms)),
        None => None,
    }
}

/// The name shown for an assignment's qwiz: its name, or `None`.
pub open spec fn qwiz_name_text(name: Option<String>) -> Seq<char> {
    match name {
        Some(n) => n@,
        None => "None"@,
    }
}

impl GetAssignmentData {
    /// The data shown for `value`: a missing qwiz name reads `None`, times
    /// are in whole seconds.
    pub fn from(value: Assignment) -> (r: Self)
        ensures
            r.id == value.id,
            r.qwiz_id == value.qwiz_id,
            r.qwiz_name@ == qwiz_name_text(value.qwiz_name),
            r.class_id == value.class_id,
            r.open_time == seconds_opt(value.open_time),
            r.close_time == seconds_opt(value.close_time),
            r.completed == value.completed.0,
    {
        let qwiz_name = match value.qwiz_name {
            Some(n) => n,
            None => String::from_str("None"),
        };
        GetAssignmentData {
            id: value.id,
            qwiz_id: value.qwiz_id,
            qwiz_name,
            class_id: value.class_id,
            open_time: seconds_of_opt(value.open_time),
            close_time: seconds_of_opt(value.close_time),
            completed: value.completed.0,
        }
    }
}

/// A new assignment as a teacher submits it. Times are seconds since the
/// Unix epoch.
#[derive(Debug)]
pub struct CreateAssignmentData {
    pub teacher_password: String,
    pub qwiz_id: i32,
    pub open_time: Option<i64>,
    pub close_time: Option<i64>,
}

} // verus!
