use crate::question::{NewQuestionData, Question};
use crate::route::{Method, RouteInfo};
use vstd::prelude::*;

verus! {

/// The text that `question_info` answers with.
pub const QUESTION_INFO: &'static str = r#"
GET /question/<qwiz_uuid>/<index> - get question data by qwiz uuid and index

POST /question/<qwiz_uuid> - add a question to an existing qwiz
"creator_password": String - required
"question": {
	"body": String - required,
	"answer1": String - required,
	"answer2": String - required,
	"answer3": String - optional,
	"answer4": String - optional,
	"correct": 1 / 2 / 3 / 4 - required,
	"embed_url": String - optional,
} - required

PATCH /question/<qwiz_uuid>/<index> - update question data
"creator_password": String - required
"new_index": i32 - optional
"new_body": String - optional
"new answers": Vector of {
	"index"
} - optional
"new_embed_url": String - optional

DELETE /question/<qwiz_uuid> - delete question
"creator_password": String - required

"#;

/// Describes the question routes and their request bodies.
pub fn question_info() -> (r: &'static str)
    ensures
        r@ == QUESTION_INFO@,
{
    QUESTION_INFO
}

/// The question routes, in the order they are mounted.
pub open spec fn question_routes() -> Seq<RouteInfo> {
    seq![
        RouteInfo { method: Method::Get, path: "/question", name: "question_info" },
        RouteInfo { method: Method::Get, path: "/question/<qwiz_uuid>/<index>", name: "get_question_by_uuid_index" },
        RouteInfo { method: Method::Post, path: "/question/<qwiz_uuid>", name: "create_question" },
        RouteInfo { method: Method::Patch, path: "/question/<qwiz_uuid>/<index>", name: "update_question" },
        RouteInfo { method: Method::Delete, path: "/question/<qwiz_uuid>", name: "delete_question" },
    ]
}

/// The question routes.
pub fn all() -> (r: Vec<RouteInfo>)
    ensures
        r@ == question_routes(),
{
    let mut r: Vec<RouteInfo> = Vec::new();
    r.push(RouteInfo { method: Method::Get, path: "/question", name: "question_info" });
    r.push(RouteInfo { method: Method::Get, path: "/question/<qwiz_uuid>/<index>", name: "get_question_by_uuid_index" });
    r.push(RouteInfo { method: Method::Post, path: "/question/<qwiz_uuid>", name: "create_question" });
    r.push(RouteInfo { method: Method::Patch, path: "/question/<qwiz_uuid>/<index>", name: "update_question" });
    r.push(RouteInfo { method: Method::Delete, path: "/question/<qwiz_uuid>", name: "delete_question" });
    assert(r@ =~= question_routes());
    r
}

/// What the service answers about a question. The second answer's field
/// carries the name `asnwer2`, which is how clients read it.
#[derive(Debug)]
pub struct GetQuestionData {
    pub index: i32,
    pub body: String,
    pub answer1: String,
    pub asnwer2: String,
    pub answer3: Option<String>,
    pub answer4: Option<String>,
    pub correct: i32,
    pub embed_url: Option<String>,
}

impl GetQuestionData {
    /// The data shown for `question`, with the address of its embedded item
    /// as looked up.
    pub fn from_question(question: Question, embed_url: Option<String>) -> (r: Self)
        ensures
            r.index == question.index,
            r.body == question.body,
            r.answer1 == question.answer1,
            r.asnwer2 == question.answer2,
            r.answer3 == question.answer3,
            r.answer4 == question.answer4,
            r.correct == question.correct as i32,
            r.embed_url == embed_url,
    {
        GetQuestionData {
            index: question.index,
            body: question.body,
            answer1: question.answer1,
            asnwer2: question.answer2,
            answer3: question.answer3,
            answer4: question.answer4,
            correct: question.correct as i32,
            embed_url,
        }
    }
}

/// A new question as its qwiz's creator submits it.
#[derive(Debug)]
pub struct PostQuestionData {
    pub creator_password: String,
    pub question: NewQuestionData,
}

} // verus!
