//! Qwizzes: a named set of questions made by an account.

pub mod routes;

use crate::account::{gate_password, password_gate, PasswordOutcome};
use crate::media::MediaError;
use crate::question::QuestionError;
use crate::text::{decimal, located};
use crate::{spec_db_err_to_status, DbError, Status};
use vstd::prelude::*;

verus! {

/// A new qwiz as its creator submits it.
#[derive(Debug)]
pub struct NewQwizData {
    pub name: String,
    pub creator_id: i32,
    pub thumbnail_url: Option<String>,
}

/// A stored qwiz.
#[derive(Debug)]
pub struct Qwiz {
    pub id: i32,
    pub name: String,
    pub creator_id: i32,
    pub thumbnail_uuid: Option<u128>,
}

// ----- changing a qwiz on request -----

/// Which fields of a qwiz a change request carries.
#[derive(Clone, Copy, Debug, PartialEq, Eq, Structural)]
pub struct QwizPatch {
    pub new_name: bool,
    pub new_thumbnail: bool,
}

/// One field of a qwiz to write.
#[derive(Clone, Copy, Debug, PartialEq, Eq, Structural)]
pub enum QwizWrite {
    Name,
    Thumbnail,
}

/// The writes a change request asks for, in the order they are made: the
/// name, then the thumbnail, each where present.
pub open spec fn qwiz_writes(p: QwizPatch) -> Seq<QwizWrite> {
    (if p.new_name { seq![QwizWrite::Name] } else { Seq::empty() })
    + (if p.new_thumbnail { seq![QwizWrite::Thumbnail] } else { Seq::empty() })
}

/// Every field a change request carries is written exactly once, and no
/// other: the name exactly when it carries a name, the thumbnail exactly
/// when it carries one, the name first.
pub proof fn qwiz_writes_are_the_carried_fields(p: QwizPatch)
    ensures
        qwiz_writes(p).contains(QwizWrite::Name) <==> p.new_name,
        qwiz_writes(p).contains(QwizWrite::Thumbnail) <==> p.new_thumbnail,
        qwiz_writes(p).len() == (if p.new_name { 1int } else { 0int }) + (if p.new_thumbnail { 1int } else { 0int }),
        p.new_name ==> qwiz_writes(p)[0] == QwizWrite::Name,
{
    let s = qwiz_writes(p);
    if p.new_name {
        assert(s[0] == QwizWrite::Name);
    }
    if p.new_thumbnail {
        assert(s[s.len() - 1] == QwizWrite::Thumbnail);
    }
    assert forall|x: QwizWrite| #[trigger] s.contains(x) implies (match x {
        QwizWrite::Name => p.new_name,
        QwizWrite::Thumbnail => p.new_thumbnail,
    }) by {
        let k = choose|k: int| 0 <= k < s.len() && s[k] == x;
    }
}

/// How far a change request has got: how many of its writes are done.
#[derive(Clone, Copy, Debug, PartialEq, Eq, Structural)]
pub struct QwizPatchState {
    pub patch: QwizPatch,
    pub written: usize,
}

/// What one write of a qwiz gave.
#[derive(Debug)]
pub enum QwizWriteResult {
    /// Whether the new name was stored.
    Name(bool),
    Thumbnail(Result<(), MediaError>),
}

/// What the service learned while changing a qwiz.
#[derive(Debug)]
pub enum QwizPatchEvent {
    /// The request came in.
    Start,
    /// The qwiz was read, or not.
    QwizFound(Result<(), DbError>),
    /// The creator's password was checked.
    CreatorChecked(PasswordOutcome),
    /// The pending write was made.
    Written(QwizWriteResult),
}

/// What the service does next while changing a qwiz.
#[derive(Debug)]
pub enum QwizPatchAction {
    LookUpQwiz,
    CheckCreator,
    Write(QwizWrite),
    Answer(Status),
    /// Answer 400 Bad Request with this text.
    Refuse(&'static str),
}

/// The write after `s`, or 200 OK when all are done.
pub open spec fn qwiz_next(s: QwizPatchState) -> QwizPatchAction {
    if s.written < qwiz_writes(s.patch).len() {
        QwizPatchAction::Write(qwiz_writes(s.patch)[s.written as int])
    } else {
        QwizPatchAction::Answer(Status { code: 200 })
    }
}

/// Whether a write result is a success.
pub open spec fn qwiz_write_succeeded(res: QwizWriteResult) -> bool {
    match res {
        QwizWriteResult::Name(ok) => ok,
        QwizWriteResult::Thumbnail(x) => x is Ok,
    }
}

fn qwiz_next_action(s: QwizPatchState) -> (r: QwizPatchAction)
    ensures
        r == qwiz_next(s),
{
    let mut v: Vec<QwizWrite> = Vec::new();
    if s.patch.new_name {
        v.push(QwizWrite::Name);
    }
    if s.patch.new_thumbnail {
        v.push(QwizWrite::Thumbnail);
    }
    assert(v@ =~= qwiz_writes(s.patch));
    if s.written < v.len() {
        QwizPatchAction::Write(v[s.written])
    } else {
        QwizPatchAction::Answer(Status { code: 200 })
    }
}

fn qwiz_write_count(p: QwizPatch) -> (r: usize)
    ensures
        r == qwiz_writes(p).len(),
{
    (if p.new_name { 1 } else { 0 }) + (if p.new_thumbnail { 1 } else { 0 })
}

/// The next step of changing a qwiz: a failed qwiz lookup is answered as
/// `db_err_to_status` with 404 says; the creator's password must be right
/// (a failed read or check is 500, a wrong password 401); then the name and
/// the thumbnail are written in that order, each where the request carries
/// it; a failed name write is refused with "Bad name", bad thumbnail base64
/// with "Bad thumbnail base64", and any other failure is 500; when all are
/// done, 200 OK.
pub fn update_qwiz_step(state: QwizPatchState, event: QwizPatchEvent) -> (r: (QwizPatchState, QwizPatchAction))
    ensures
        event is Start ==> r == (state, QwizPatchAction::LookUpQwiz),
        event matches QwizPatchEvent::QwizFound(x) ==> r == (state, match x {
            Ok(()) => QwizPatchAction::CheckCreator,
            Err(e) => QwizPatchAction::Answer(spec_db_err_to_status(e.kind, Status { code: 404 })),
        }),
        event matches QwizPatchEvent::CreatorChecked(o) ==> match password_gate(o, Status { code: 500 }) {
            Some(s) => r == (state, QwizPatchAction::Answer(s)),
            None => r.0 == QwizPatchState { patch: state.patch, written: 0 } && r.1 == qwiz_next(r.0),
        },
        event matches QwizPatchEvent::Written(res) ==> {
            if qwiz_write_succeeded(res) {
                if state.written < qwiz_writes(state.patch).len() {
                    r.0 == QwizPatchState { patch: state.patch, written: (state.written + 1) as usize } && r.1 == qwiz_next(r.0)
                } else {
                    r == (state, QwizPatchAction::Answer(Status { code: 200 }))
                }
            } else {
                &&& r.0 == state
                &&& match res {
                    QwizWriteResult::Name(_) => r.1 matches QwizPatchAction::Refuse(t) && t@ == "Bad name"@,
                    QwizWriteResult::Thumbnail(Err(MediaError::Base64(_))) => r.1 matches QwizPatchAction::Refuse(t) && t@ == "Bad thumbnail base64"@,
                    QwizWriteResult::Thumbnail(_) => r.1 == QwizPatchAction::Answer(Status { code: 500 }),
                }
            }
        },
{
    match event {
        QwizPatchEvent::Start => (state, QwizPatchAction::LookUpQwiz),
        QwizPatchEvent::QwizFound(x) => match x {
            Ok(()) => (state, QwizPatchAction::CheckCreator),
            Err(e) => (state, QwizPatchAction::Answer(crate::db_err_to_status(&e, Status { code: 404 }))),
        },
        QwizPatchEvent::CreatorChecked(o) => match gate_password(&o, Status { code: 500 }) {
            Some(s) => (state, QwizPatchAction::Answer(s)),
            None => {
                let s = QwizPatchState { patch: state.patch, written: 0 };
                (s, qwiz_next_action(s))
            },
        },
        QwizPatchEvent::Written(res) => {
            let refusal = match res {
                QwizWriteResult::Name(true) => None,
                QwizWriteResult::Name(false) => Some(QwizPatchAction::Refuse("Bad name")),
                QwizWriteResult::Thumbnail(Ok(())) => None,
                QwizWriteResult::Thumbnail(Err(MediaError::Base64(_))) => Some(QwizPatchAction::Refuse("Bad thumbnail base64")),
                QwizWriteResult::Thumbnail(Err(_)) => Some(QwizPatchAction::Answer(Status { code: 500 })),
            };
            match refusal {
                Some(a) => (state, a),
                None => if state.written < qwiz_write_count(state.patch) {
                    let s = QwizPatchState { patch: state.patch, written: state.written + 1 };
                    (s, qwiz_next_action(s))
                } else {
                    (state, QwizPatchAction::Answer(Status { code: 200 }))
                },
            }
        },
    }
}

// ----- creating a qwiz on request -----

/// How a failure to store the questions of a new qwiz is answered, once
/// the qwiz is removed again.
#[derive(Clone, Copy, Debug, PartialEq, Eq, Structural)]
pub enum QuestionsFailure {
    /// A bare status.
    Answer(Status),
    /// 400 Bad Request with "Bad media base64".
    BadMedia,
}

/// The answer a question failure leads to: a database failure as
/// `db_err_to_status` with 400 says, bad base64 content as a refusal, and
/// a file failure as 500.
pub open spec fn questions_failure(e: QuestionError) -> QuestionsFailure {
    match e {
        QuestionError::Sqlx(d) => QuestionsFailure::Answer(spec_db_err_to_status(d.kind, Status { code: 400 })),
        QuestionError::Base64(_) => QuestionsFailure::BadMedia,
        QuestionError::IO(_) => QuestionsFailure::Answer(Status { code: 500 }),
    }
}

/// What a qwiz creation has got so far: the new qwiz's id once it is made,
/// and how to answer once it is removed after its questions failed.
#[derive(Clone, Copy, Debug, PartialEq, Eq, Structural)]
pub struct CreateQwizState {
    pub qwiz_id: i32,
    pub failure: Option<QuestionsFailure>,
}

/// What the service learned while creating a qwiz.
#[derive(Debug)]
pub enum CreateQwizEvent {
    /// The request came in.
    Start,
    /// The creator's password was checked.
    CreatorChecked(PasswordOutcome),
    /// The qwiz was made (with its id), or not.
    QwizMade(Result<i32, MediaError>),
    /// Its questions were stored, or not.
    QuestionsStored(Result<(), QuestionError>),
    /// The qwiz was removed again, or not.
    QwizRemoved(Result<(), DbError>),
}

/// What the service does next while creating a qwiz.
#[derive(Debug)]
pub enum CreateQwizAction {
    CheckCreator,
    MakeQwiz,
    StoreQuestions,
    /// Remove the new qwiz, whose questions could not be stored.
    RemoveQwiz,
    /// Answer 201 Created with this address.
    Created(String),
    Answer(Status),
    /// Answer 400 Bad Request with this text.
    Refuse(&'static str),
}

/// The next step of creating a qwiz: the creator's password must be right
/// (a missing creator or a wrong password is 401, a failed check 500); then
/// the qwiz is made (a database failure answered as `db_err_to_status` with
/// 400 says, bad thumbnail base64 refused, a file failure 500); then its
/// questions are stored: on success the answer is its address
/// `/api/qwiz/<id>`; on failure the qwiz is removed again (500 when that
/// fails) and the answer is the one `questions_failure` gives.
pub fn create_qwiz_step(state: CreateQwizState, event: CreateQwizEvent) -> (r: (CreateQwizState, CreateQwizAction))
    ensures
        event is Start ==> r == (state, CreateQwizAction::CheckCreator),
        event matches CreateQwizEvent::CreatorChecked(o) ==> r == (state, match password_gate(o, Status { code: 401 }) {
            Some(s) => CreateQwizAction::Answer(s),
            None => CreateQwizAction::MakeQwiz,
        }),
        event matches CreateQwizEvent::QwizMade(x) ==> match x {
            Ok(id) => r == (CreateQwizState { qwiz_id: id, failure: state.failure }, CreateQwizAction::StoreQuestions),
            Err(MediaError::Sqlx(e)) => r == (state, CreateQwizAction::Answer(spec_db_err_to_status(e.kind, Status { code: 400 }))),
            Err(MediaError::Base64(_)) => r.0 == state && (r.1 matches CreateQwizAction::Refuse(t) && t@ == "Bad thumbnail base64"@),
            Err(MediaError::IO(_)) => r == (state, CreateQwizAction::Answer(Status { code: 500 })),
        },
        event matches CreateQwizEvent::QuestionsStored(x) ==> match x {
            Ok(()) => r.0 == state && (r.1 matches CreateQwizAction::Created(t) && t@ == "/api/qwiz/"@ + decimal(state.qwiz_id as int)),
            Err(e) => r == (CreateQwizState { qwiz_id: state.qwiz_id, failure: Some(questions_failure(e)) }, CreateQwizAction::RemoveQwiz),
        },
        event matches CreateQwizEvent::QwizRemoved(x) ==> r.0 == state && match x {
            Err(_) => r.1 == CreateQwizAction::Answer(Status { code: 500 }),
            Ok(()) => match state.failure {
                Some(QuestionsFailure::Answer(s)) => r.1 == CreateQwizAction::Answer(s),
                Some(QuestionsFailure::BadMedia) => r.1 matches CreateQwizAction::Refuse(t) && t@ == "Bad media base64"@,
                None => r.1 == CreateQwizAction::Answer(Status { code: 500 }),
            },
        },
{
    match event {
        CreateQwizEvent::Start => (state, CreateQwizAction::CheckCreator),
        CreateQwizEvent::CreatorChecked(o) => match gate_password(&o, Status { code: 401 }) {
            Some(s) => (state, CreateQwizAction::Answer(s)),
            None => (state, CreateQwizAction::MakeQwiz),
        },
        CreateQwizEvent::QwizMade(x) => match x {
            Ok(id) => (CreateQwizState { qwiz_id: id, failure: state.failure }, CreateQwizAction::StoreQuestions),
            Err(MediaError::Sqlx(e)) => (state, CreateQwizAction::Answer(crate::db_err_to_status(&e, Status { code: 400 }))),
            Err(MediaError::Base64(_)) => (state, CreateQwizAction::Refuse("Bad thumbnail base64")),
            Err(MediaError::IO(_)) => (state, CreateQwizAction::Answer(Status { code: 500 })),
        },
        CreateQwizEvent::QuestionsStored(x) => match x {
            Ok(()) => (state, CreateQwizAction::Created(located("/api/qwiz/", state.qwiz_id))),
            Err(e) => {
                let failure = match e {
                    QuestionError::Sqlx(d) => QuestionsFailure::Answer(crate::db_err_to_status(&d, Status { code: 400 })),
                    QuestionError::Base64(_) => QuestionsFailure::BadMedia,
                    QuestionError::IO(_) => QuestionsFailure::Answer(Status { code: 500 }),
                };
                (CreateQwizState { qwiz_id: state.qwiz_id, failure: Some(failure) }, CreateQwizAction::RemoveQwiz)
            },
        },
        CreateQwizEvent::QwizRemoved(x) => match x {
            Err(_) => (state, CreateQwizAction::Answer(Status { code: 500 })),
            Ok(()) => match state.failure {
                Some(QuestionsFailure::Answer(s)) => (state, CreateQwizAction::Answer(s)),
                Some(QuestionsFailure::BadMedia) => (state, CreateQwizAction::Refuse("Bad media base64")),
                None => (state, CreateQwizAction::Answer(Status { code: 500 })),
            },
        },
    }
}

} // verus!
