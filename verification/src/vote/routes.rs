use crate::route::{Method, RouteInfo};
use crate::vote::Vote;
use vstd::prelude::*;

verus! {

/// The text that `vote_info` answers with.
pub const VOTE_INFO: &'static str = r#"
GET /vote/<qwiz_id> - get list of voter ids by qwiz id

PUT /vote/<qwiz_id> - vote for a qwiz
voter_password: String - required
vote: {
	voter_id: i32 - required,
	qwiz_id: i32 - required
} - required

DELETE /vote/<qwiz_id> - delete vote
voter_password: String - required
vote: {
	voter_id: i32 - required,
	qwiz_id: i32 - required
} - required
"#;

/// Describes the vote routes and their request bodies.
pub fn vote_info() -> (r: &'static str)
    ensures
        r@ == VOTE_INFO@,
{
    VOTE_INFO
}

/// The vote routes, in the order they are mounted.
pub open spec fn vote_routes() -> Seq<RouteInfo> {
    seq![
        RouteInfo { method: Method::Get, path: "/vote", name: "vote_info" },
        RouteInfo { method: Method::Get, path: "/vote/<qwiz_id>", name: "get_votes" },
        RouteInfo { method: Method::Put, path: "/vote/<qwiz_id>", name: "add_vote" },
        RouteInfo { method: Method::Delete, path: "/vote/<qwiz_id>", name: "delete_vote" },
    ]
}

/// The vote routes.
pub fn all() -> (r: Vec<RouteInfo>)
    ensures
        r@ == vote_routes(),
{
    let mut r: Vec<RouteInfo> = Vec::new();
    r.push(RouteInfo { method: Method::Get, path: "/vote", name: "vote_info" });
    r.push(RouteInfo { method: Method::Get, path: "/vote/<qwiz_id>", name: "get_votes" });
    r.push(RouteInfo { method: Method::Put, path: "/vote/<qwiz_id>", name: "add_vote" });
    r.push(RouteInfo { method: Method::Delete, path: "/vote/<qwiz_id>", name: "delete_vote" });
    assert(r@ =~= vote_routes());
    r
}

/// What the service answers about the votes of a qwiz: who voted.
#[derive(Debug)]
pub struct GetVoteData {
    pub voter_ids: Vec<i32>,
}

impl GetVoteData {
    /// The voters of `votes`, in order.
    pub fn from_votes(votes: Vec<Vote>) -> (r: Self)
        ensures
            r.voter_ids@ == votes@.map_values(|v: Vote| v.voter_id),
    {
        let mut voter_ids: Vec<i32> = Vec::new();
        let mut i: usize = 0;
        while i < votes.len()
            invariant
                i <= votes@.len(),
                voter_ids@ =~= votes@.take(i as int).map_values(|v: Vote| v.voter_id),
            decreases votes@.len() - i,
        {
            voter_ids.push(votes[i].voter_id);
            i = i + 1;
            assert(voter_ids@ =~= votes@.take(i as int).map_values(|v: Vote| v.voter_id));
        }
        assert(votes@.take(i as int) =~= votes@);
        GetVoteData { voter_ids }
    }
}

} // verus!
