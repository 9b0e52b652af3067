use crate::live::{LiveQwizParticipant, LiveQwizState};
use crate::media::{Media, MediaType};
use crate::question::{answer_list, answers_of, Question};
use crate::route::{Method, RouteInfo};
use vstd::prelude::*;

verus! {

/// The live routes, in the order they are mounted.
pub open spec fn live_routes() -> Seq<RouteInfo> {
    seq![
        RouteInfo { method: Method::Get, path: "/live/<id>", name: "state" },
        RouteInfo { method: Method::Post, path: "/live", name: "create" },
        RouteInfo { method: Method::Put, path: "/live/<id>", name: "add_participants" },
        RouteInfo { method: Method::Delete, path: "/live/<id>", name: "remove_participants" },
    ]
}

/// The live routes.
pub fn all() -> (r: Vec<RouteInfo>)
    ensures
        r@ == live_routes(),
{
    let mut r: Vec<RouteInfo> = Vec::new();
    r.push(RouteInfo { method: Method::Get, path: "/live/<id>", name: "state" });
    r.push(RouteInfo { method: Method::Post, path: "/live", name: "create" });
    r.push(RouteInfo { method: Method::Put, path: "/live/<id>", name: "add_participants" });
    r.push(RouteInfo { method: Method::Delete, path: "/live/<id>", name: "remove_participants" });
    assert(r@ =~= live_routes());
    r
}

/// How a host asks a live qwiz to present its questions and answers.
#[derive(Debug)]
pub struct LiveQwizOptions {
    pub shuffle_questions: bool,
    pub shuffle_answers: bool,
}

/// A media item as shown in a live qwiz.
#[derive(Debug)]
pub struct MediaData {
    pub uri: String,
    pub media_type: MediaType,
}

/// A question as shown in a live qwiz: its text, its embedded item and its
/// answers in order.
#[derive(Debug)]
pub struct QuestionData {
    pub body: String,
    pub embed: Option<MediaData>,
    pub answers: Vec<String>,
}

impl QuestionData {
    /// The shown form of `question`, with its embedded item as looked up.
    pub fn from_question(question: &Question, media: Option<Media>) -> (r: Self)
        ensures
            r.body@ == question.body@,
            r.answers@.map_values(|a: String| a@) == answer_list(*question),
            r.embed matches Some(m) <==> media is Some,
            r.embed matches Some(m) ==> m.uri == media->0.uri && m.media_type == media->0.media_type,
    {
        let answers = answers_of(question);
        QuestionData {
            body: question.body.clone(),
            embed: match media {
                Some(m) => Some(MediaData { uri: m.uri, media_type: m.media_type }),
                None => None,
            },
            answers,
        }
    }
}

/// What the service answers about a live qwiz.
#[derive(Debug)]
pub struct GetLiveQwizData {
    pub qwiz_id: i32,
    pub host_id: i32,
    pub participants: Vec<LiveQwizParticipant>,
    pub state: LiveQwizState,
    pub current_question: Option<QuestionData>,
}

/// A participant as a host adds them.
#[derive(Debug)]
pub struct PutLiveQwizParticipant {
    pub id: i32,
    pub display_name: Option<String>,
}

} // verus!
