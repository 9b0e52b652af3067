use crate::route::{Method, RouteInfo};
use vstd::prelude::*;

verus! {

/// The text that `qwiz_info` answers with.
pub const QWIZ_INFO: &'static str = r#"
GET /qwiz/<id> - get qwiz data by id

GET /qwiz/best?<page>&<search> - get 50 best qwizes by name, rated by votes

GET /qwiz/recent?<page> - get 50 best qwizes created in the last 2 weeks, rated by votes

POST /qwiz - create a qwiz
creator_password: String - required
qwiz: {
	name: String - required
	creator_id: i32 - required
	thumbnail_uri: String - optional
	public: bool - optional
} - required
questions: Vector of {
	body: String - required,
	answer1: String - required,
	answer2: String - required,
	answer3: String - optional,
	answer4: String - optional,
	correct: 1 / 2 / 3 / 4 - required,
	embed: {
		data: String - required
		media_type: MediaType - required
	} - optional,
} - required

PATCH /qwiz/<id> - update qwiz data
creator_password: String - required
new_name: String - optional
new_thumbnail: String - optional

DELETE /qwiz/<id> - delete qwiz
creator_password: String - required
"#;

/// Describes the qwiz routes and their request bodies.
pub fn qwiz_info() -> (r: &'static str)
    ensures
        r@ == QWIZ_INFO@,
{
    QWIZ_INFO
}

/// The qwiz routes, in the order they are mounted.
pub open spec fn qwiz_routes() -> Seq<RouteInfo> {
    seq![
        RouteInfo { method: Method::Get, path: "/qwiz", name: "qwiz_info" },
        RouteInfo { method: Method::Get, path: "/qwiz/<id>", name: "get_qwiz_by_id" },
        RouteInfo { method: Method::Get, path: "/qwiz/best?<page>&<search>", name: "get_best" },
        RouteInfo { method: Method::Get, path: "/qwiz/recent?<page>", name: "get_recent" },
        RouteInfo { method: Method::Post, path: "/qwiz", name: "create_qwiz" },
        RouteInfo { method: Method::Patch, path: "/qwiz/<id>", name: "update_qwiz" },
        RouteInfo { method: Method::Delete, path: "/qwiz/<id>", name: "delete_qwiz" },
    ]
}

/// The qwiz routes.
pub fn all() -> (r: Vec<RouteInfo>)
    ensures
        r@ == qwiz_routes(),
{
    let mut r: Vec<RouteInfo> = Vec::new();
    r.push(RouteInfo { method: Method::Get, path: "/qwiz", name: "qwiz_info" });
    r.push(RouteInfo { method: Method::Get, path: "/qwiz/<id>", name: "get_qwiz_by_id" });
    r.push(RouteInfo { method: Method::Get, path: "/qwiz/best?<page>&<search>", name: "get_best" });
    r.push(RouteInfo { method: Method::Get, path: "/qwiz/recent?<page>", name: "get_recent" });
    r.push(RouteInfo { method: Method::Post, path: "/qwiz", name: "create_qwiz" });
    r.push(RouteInfo { method: Method::Patch, path: "/qwiz/<id>", name: "update_qwiz" });
    r.push(RouteInfo { method: Method::Delete, path: "/qwiz/<id>", name: "delete_qwiz" });
    assert(r@ =~= qwiz_routes());
    r
}

/// A qwiz in a list of qwizzes.
#[derive(Debug)]
pub struct GetShortQwizData {
    pub id: i32,
    pub name: String,
    pub thumbnail_uri: Option<String>,
    pub votes: Option<i64>,
    pub creator_name: Option<String>,
    pub creator_profile_picture_uri: Option<String>,
    pub create_time: Option<i64>,
}

/// How many qwizzes a page of a list holds.
pub const PAGE_SIZE: i64 = 50;

/// The number of the page asked for: the first page when none is given.
pub fn page_number(page: Option<u32>) -> (r: i64)
    ensures
        r == match page {
            Some(p) => p as int,
            None => 0int,
        },
{
    match page {
        Some(p) => p as i64,
        None => 0,
    }
}

/// How many qwizzes come before the page asked for.
pub fn page_offset(page: Option<u32>) -> (r: i64)
    ensures
        r == PAGE_SIZE * match page {
            Some(p) => p as int,
            None => 0int,
        },
{
    page_number(page) * PAGE_SIZE
}

/// How many days back the list of recent qwizzes reaches.
pub const RECENT_DAYS: i64 = 14;

} // verus!
