use crate::account::{Account, AccountType};
use crate::media::routes::GetMediaData;
use crate::route::{Method, RouteInfo};
use vstd::prelude::*;

verus! {

/// The text that `account_info` answers with.
pub const ACCOUNT_INFO: &'static str = r#"
enum AccountType ( "Student", "Parent", "Teacher" )

GET /account/<id> - get account data by id
GET /account/<username> - get account data by username
GET /account/search?username_prefix - get accounts with usernames starting with a prefix

POST /account - create an account
username: String - required
password: String - required
account_type: AccountType - required
profile_picture: {
	data: String - required
	media_type: MediaType - required
} - optional

PATCH /account/<id> - update account data
password: String - required
new_username: String - optional
new_password: String - optional
new_account_type: AccountType - optional
new_profile_picture: {
	data: String - required
	media_type: MediaType - required
} - optional

DELETE /account/<id> - delete account
password: String - required

POST /account/<id>/classes - get student/teacher account classes
password: String - required

POST /account/<id>/assignments - get student assignments
password: String - required

POST /account/<id>/qwizes - get account qwizes
password: String - required

POST /account/<id>/verify - verify password by id
password: String - required

POST /account/verify - verify password by username
username: String - required
password: String - required
"#;

/// Describes the account routes and their request bodies.
pub fn account_info() -> (r: &'static str)
    ensures
        r@ == ACCOUNT_INFO@,
{
    ACCOUNT_INFO
}

/// The account routes, in the order they are mounted.
pub open spec fn account_routes() -> Seq<RouteInfo> {
    seq![
        RouteInfo { method: Method::Get, path: "/account", name: "account_info" },
        RouteInfo { method: Method::Get, path: "/account/<id>", name: "get_account_by_id" },
        RouteInfo { method: Method::Get, path: "/account/<username>", name: "get_account_by_username" },
        RouteInfo { method: Method::Get, path: "/account/search?<username_prefix>&<is_student>", name: "get_accounts_with_prefix" },
        RouteInfo { method: Method::Post, path: "/account/<id>/verify", name: "verify_password_by_id" },
        RouteInfo { method: Method::Post, path: "/account/verify", name: "verify_password_by_username" },
        RouteInfo { method: Method::Post, path: "/account", name: "create_account" },
        RouteInfo { method: Method::Patch, path: "/account/<id>", name: "update_account" },
        RouteInfo { method: Method::Delete, path: "/account/<id>", name: "delete_account" },
    ]
}

/// The account routes.
pub fn all() -> (r: Vec<RouteInfo>)
    ensures
        r@ == account_routes(),
{
    let mut r: Vec<RouteInfo> = Vec::new();
    r.push(RouteInfo { method: Method::Get, path: "/account", name: "account_info" });
    r.push(RouteInfo { method: Method::Get, path: "/account/<id>", name: "get_account_by_id" });
    r.push(RouteInfo { method: Method::Get, path: "/account/<username>", name: "get_account_by_username" });
    r.push(RouteInfo { method: Method::Get, path: "/account/search?<username_prefix>&<is_student>", name: "get_accounts_with_prefix" });
    r.push(RouteInfo { method: Method::Post, path: "/account/<id>/verify", name: "verify_password_by_id" });
    r.push(RouteInfo { method: Method::Post, path: "/account/verify", name: "verify_password_by_username" });
    r.push(RouteInfo { method: Method::Post, path: "/account", name: "create_account" });
    r.push(RouteInfo { method: Method::Patch, path: "/account/<id>", name: "update_account" });
    r.push(RouteInfo { method: Method::Delete, path: "/account/<id>", name: "delete_account" });
    assert(r@ =~= account_routes());
    r
}

/// What the service answers about an account (never its password hash).
#[derive(Debug)]
pub struct GetAccountData {
    pub id: i32,
    pub username: String,
    pub profile_picture: Option<GetMediaData>,
    pub account_type: AccountType,
}

impl GetAccountData {
    /// The public data of `account`, with its profile picture as looked up.
    pub fn from_account(account: Account, profile_picture: Option<GetMediaData>) -> (r: Self)
        ensures
            r.id == account.id,
            r.username == account.username,
            r.profile_picture == profile_picture,
            r.account_type == account.account_type,
    {
        GetAccountData {
            id: account.id,
            username: account.username,
            profile_picture,
            account_type: account.account_type,
        }
    }
}

/// An account found by a username search.
#[derive(Debug)]
pub struct IdUsernameData {
    pub id: i32,
    pub username: String,
}

/// The search results as id and username records, in order.
pub fn id_username_list(found: Vec<(i32, String)>) -> (r: Vec<IdUsernameData>)
    ensures
        r@.len() == found@.len(),
        forall|i: int| 0 <= i < found@.len() ==> (#[trigger] r@[i]).id == found@[i].0 && r@[i].username == found@[i].1,
{
    let ghost all = found@;
    let mut queue = crate::to_queue(found);
    let mut r: Vec<IdUsernameData> = Vec::new();
    while queue.len() > 0
        invariant
            r@.len() + queue@.len() == all.len(),
            queue@ == all.subrange(r@.len() as int, all.len() as int),
            forall|i: int| 0 <= i < r@.len() ==> (#[trigger] r@[i]).id == all[i].0 && r@[i].username == all[i].1,
        decreases queue@.len(),
    {
        let (id, username) = queue.pop_front().unwrap();
        r.push(IdUsernameData { id, username });
    }
    r
}

} // verus!
