//! Votes: an account's vote for a qwiz it did not create.

pub mod routes;

use crate::account::PasswordOutcome;
use crate::{DbError, Status};
use vstd::prelude::*;

verus! {

/// A vote as a client submits it.
#[derive(Debug)]
pub struct VoteData {
    pub voter_id: i32,
    pub qwiz_id: i32,
}

/// Why a vote could not be read or cast.
#[derive(Debug)]
pub enum VoteError {
    QwizNotFound,
    SelfVote,
    Sqlx(DbError),
}

impl From<DbError> for VoteError {
    fn from(value: DbError) -> (r: Self) {
        VoteError::Sqlx(value)
    }
}

impl vstd::std_specs::convert::FromSpecImpl<DbError> for VoteError {
    open spec fn obeys_from_spec() -> bool {
        true
    }

    open spec fn from_spec(v: DbError) -> Self {
        VoteError::Sqlx(v)
    }
}

/// A stored vote.
#[derive(Debug)]
pub struct Vote {
    pub voter_id: i32,
    pub qwiz_id: i32,
}

/// The outcome of checking a vote against the creator of its qwiz (`None`
/// when the qwiz does not exist).
pub open spec fn vote_check(creator_id: Option<i32>, data: VoteData) -> Result<(), VoteError> {
    match creator_id {
        None => Err(VoteError::QwizNotFound),
        Some(c) => if c == data.voter_id {
            Err(VoteError::SelfVote)
        } else {
            Ok(())
        },
    }
}

impl Vote {
    /// The check made before a vote is stored: the qwiz must exist and the
    /// voter must not be its creator.
    pub fn check_vote_data(creator_id: Option<i32>, data: &VoteData) -> (r: Result<(), VoteError>)
        ensures
            r == vote_check(creator_id, *data),
    {
        match creator_id {
            None => Err(VoteError::QwizNotFound),
            Some(c) => {
                if c == data.voter_id {
                    return Err(VoteError::SelfVote);
                }
                Ok(())
            },
        }
    }
}

/// Nobody can vote for their own qwiz.
pub proof fn no_self_vote(creator_id: i32, data: VoteData)
    requires
        vote_check(Some(creator_id), data) is Ok,
    ensures
        data.voter_id != creator_id,
{
}

/// The status a failed vote operation is answered with: 500 for a database
/// failure, 404 when the qwiz does not exist, and 403 for a vote for one's
/// own qwiz.
pub open spec fn vote_error_answer(e: VoteError) -> Status {
    match e {
        VoteError::Sqlx(_) => Status { code: 500 },
        VoteError::QwizNotFound => Status { code: 404 },
        VoteError::SelfVote => Status { code: 403 },
    }
}

/// The status a failed vote operation is answered with.
pub fn vote_error_status(e: &VoteError) -> (r: Status)
    ensures
        r == vote_error_answer(*e),
{
    match e {
        VoteError::Sqlx(_) => Status { code: 500 },
        VoteError::QwizNotFound => Status { code: 404 },
        VoteError::SelfVote => Status { code: 403 },
    }
}

/// What the service learned while casting a vote.
#[derive(Debug)]
pub enum VoteEvent {
    /// The request came in.
    Start,
    /// The voter's password was checked.
    VoterChecked(PasswordOutcome),
    /// Whether the voter has already voted for the qwiz.
    Exists(Result<bool, VoteError>),
    /// The vote was stored, or not.
    Stored(Result<(), VoteError>),
}

/// What the service does next while casting a vote.
#[derive(Debug)]
pub enum VoteAction {
    /// Check the voter's password.
    CheckVoter,
    /// Look whether the vote already exists.
    CheckExists,
    /// Store the vote.
    Store,
    /// Answer the request with a status.
    Answer(Status),
}

/// The next step of casting a vote: the voter's password must be right
/// (a missing voter or a wrong password is 401 Unauthorized), an existing
/// vote is answered 204 No Content, otherwise the vote is stored (200 OK);
/// every failure is answered with `vote_error_status`.
pub fn add_vote_step(event: VoteEvent) -> (r: VoteAction)
    ensures
        event is Start ==> r == VoteAction::CheckVoter,
        event matches VoteEvent::VoterChecked(o) ==> r == match o {
            PasswordOutcome::NoAccount(_) => VoteAction::Answer(Status { code: 401 }),
            PasswordOutcome::CheckFailed => VoteAction::Answer(Status { code: 500 }),
            PasswordOutcome::Answered(false) => VoteAction::Answer(Status { code: 401 }),
            PasswordOutcome::Answered(true) => VoteAction::CheckExists,
        },
        event matches VoteEvent::Exists(x) ==> r == match x {
            Ok(true) => VoteAction::Answer(Status { code: 204 }),
            Ok(false) => VoteAction::Store,
            Err(e) => VoteAction::Answer(vote_error_answer(e)),
        },
        event matches VoteEvent::Stored(x) ==> r == match x {
            Ok(()) => VoteAction::Answer(Status { code: 200 }),
            Err(e) => VoteAction::Answer(vote_error_answer(e)),
        },
{
    match event {
        VoteEvent::Start => VoteAction::CheckVoter,
        VoteEvent::VoterChecked(o) => match o {
            PasswordOutcome::NoAccount(_) => VoteAction::Answer(Status { code: 401 }),
            PasswordOutcome::CheckFailed => VoteAction::Answer(Status { code: 500 }),
            PasswordOutcome::Answered(ok) => if ok {
                VoteAction::CheckExists
            } else {
                VoteAction::Answer(Status { code: 401 })
            },
        },
        VoteEvent::Exists(x) => match x {
            Ok(exists) => if exists {
                VoteAction::Answer(Status { code: 204 })
            } else {
                VoteAction::Store
            },
            Err(e) => VoteAction::Answer(vote_error_status(&e)),
        },
        VoteEvent::Stored(x) => match x {
            Ok(()) => VoteAction::Answer(Status { code: 200 }),
            Err(e) => VoteAction::Answer(vote_error_status(&e)),
        },
    }
}

/// What the service learned while withdrawing a vote.
#[derive(Debug)]
pub enum DeleteVoteEvent {
    /// The request came in.
    Start,
    /// The voter's password was checked.
    VoterChecked(PasswordOutcome),
    /// The stored vote, if any.
    Found(Result<Option<Vote>, VoteError>),
    /// The vote was deleted, or not.
    Deleted(Result<(), DbError>),
}

/// What the service does next while withdrawing a vote.
#[derive(Debug)]
pub enum DeleteVoteAction {
    /// Check the voter's password.
    CheckVoter,
    /// Look the vote up.
    Find,
    /// Delete this vote.
    Delete(Vote),
    /// Answer the request with a status.
    Answer(Status),
}

/// The next step of withdrawing a vote: the voter's password must be right
/// (a missing voter or a wrong password is 401 Unauthorized), a vote that
/// does not exist is answered 204 No Content, otherwise it is deleted
/// (200 OK, or 500 when the deletion fails); a failed lookup is answered
/// with `vote_error_status`.
pub fn delete_vote_step(event: DeleteVoteEvent) -> (r: DeleteVoteAction)
    ensures
        event is Start ==> r == DeleteVoteAction::CheckVoter,
        event matches DeleteVoteEvent::VoterChecked(o) ==> r == match o {
            PasswordOutcome::NoAccount(_) => DeleteVoteAction::Answer(Status { code: 401 }),
            PasswordOutcome::CheckFailed => DeleteVoteAction::Answer(Status { code: 500 }),
            PasswordOutcome::Answered(false) => DeleteVoteAction::Answer(Status { code: 401 }),
            PasswordOutcome::Answered(true) => DeleteVoteAction::Find,
        },
        event matches DeleteVoteEvent::Found(x) ==> r == match x {
            Ok(None) => DeleteVoteAction::Answer(Status { code: 204 }),
            Ok(Some(v)) => DeleteVoteAction::Delete(v),
            Err(e) => DeleteVoteAction::Answer(vote_error_answer(e)),
        },
        event matches DeleteVoteEvent::Deleted(x) ==> r == match x {
            Ok(()) => DeleteVoteAction::Answer(Status { code: 200 }),
            Err(_) => DeleteVoteAction::Answer(Status { code: 500 }),
        },
{
    match event {
        DeleteVoteEvent::Start => DeleteVoteAction::CheckVoter,
        DeleteVoteEvent::VoterChecked(o) => match o {
            PasswordOutcome::NoAccount(_) => DeleteVoteAction::Answer(Status { code: 401 }),
            PasswordOutcome::CheckFailed => DeleteVoteAction::Answer(Status { code: 500 }),
            PasswordOutcome::Answered(ok) => if ok {
                DeleteVoteAction::Find
            } else {
                DeleteVoteAction::Answer(Status { code: 401 })
            },
        },
        DeleteVoteEvent::Found(x) => match x {
            Ok(found) => match found {
                None => DeleteVoteAction::Answer(Status { code: 204 }),
                Some(v) => DeleteVoteAction::Delete(v),
            },
            Err(e) => DeleteVoteAction::Answer(vote_error_status(&e)),
        },
        DeleteVoteEvent::Deleted(x) => match x {
            Ok(()) => DeleteVoteAction::Answer(Status { code: 200 }),
            Err(_) => DeleteVoteAction::Answer(Status { code: 500 }),
        },
    }
}

} // verus!
