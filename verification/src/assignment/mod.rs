//! Assignments: a qwiz set for a class, open during a time window, which
//! each student completes once.

pub mod routes;

use crate::account::AccountType;
use crate::OptBool;
use vstd::prelude::*;

verus! {

/// A stored assignment as seen by one account. Times are milliseconds
/// since the Unix epoch.
#[derive(Debug)]
pub struct Assignment {
    pub id: i32,
    pub qwiz_id: i32,
    pub qwiz_name: Option<String>,
    pub class_id: i32,
    pub open_time: Option<i64>,
    pub close_time: Option<i64>,
    pub completed: OptBool,
}

/// What completing an assignment at a given time comes to.
#[derive(Clone, Copy, Debug, PartialEq, Eq, Structural)]
pub enum CompletionStep {
    /// Already completed: the answer is `true` with nothing to record.
    AlreadyCompleted,
    /// The closing time has passed: the answer is `false`.
    Closed,
    /// The opening time has not come: the answer is `false`.
    NotOpen,
    /// Record the completion; the answer is `true`.
    Record,
}

/// The step for an assignment at time `now` (milliseconds). A time is
/// compared as the unsigned number its bits make, as the service does.
pub open spec fn completion_step_at(a: Assignment, now: u128) -> CompletionStep {
    if a.completed.0 {
        CompletionStep::AlreadyCompleted
    } else if a.close_time matches Some(c) && (c as u128) < now {
        CompletionStep::Closed
    } else if a.open_time matches Some(o) && (o as u128) > now {
        CompletionStep::NotOpen
    } else {
        CompletionStep::Record
    }
}

/// Where the assignments of an account come from.
#[derive(Clone, Copy, Debug, PartialEq, Eq, Structural)]
pub enum AssignmentSource {
    /// The assignments of the classes the student is in.
    StudentClasses,
    /// The assignments of the classes the teacher teaches.
    TeacherClasses,
}

impl Assignment {
    /// The step for completing this assignment at time `now`.
    pub fn completion_step(&self, now: u128) -> (r: CompletionStep)
        ensures
            r == completion_step_at(*self, now),
            (r == CompletionStep::Record) <==> (!self.completed.0 && !closes_before(*self, now) && !opens_after(*self, now)),
            !self.completed.0 && !closes_before(*self, now) && opens_after(*self, now) ==> r == CompletionStep::NotOpen,
    {
        if *self.completed {
            return CompletionStep::AlreadyCompleted;
        }
        if let Some(close_time) = self.close_time {
            if (#[verifier::truncate] (close_time as u128)) < now {
                return CompletionStep::Closed;
            }
        }
        if let Some(open_time) = self.open_time {
            if (#[verifier::truncate] (open_time as u128)) > now {
                return CompletionStep::NotOpen;
            }
        }
        proof {
            completion_follows_the_window(*self, now);
        }
        CompletionStep::Record
    }

    /// Marks the assignment completed once the completion is recorded.
    pub fn mark_completed(&mut self)
        ensures
            final(self).completed.0,
            final(self).id == old(self).id,
            final(self).qwiz_id == old(self).qwiz_id,
            final(self).qwiz_name == old(self).qwiz_name,
            final(self).class_id == old(self).class_id,
            final(self).open_time == old(self).open_time,
            final(self).close_time == old(self).close_time,
    {
        self.completed = true.into();
    }

    /// Where the assignments of an account of kind `account_type` come
    /// from; a parent has none.
    pub fn source_for(account_type: AccountType) -> (r: Option<AssignmentSource>)
        ensures
            r == match account_type {
                AccountType::Student => Some(AssignmentSource::StudentClasses),
                AccountType::Teacher => Some(AssignmentSource::TeacherClasses),
                AccountType::Parent => None::<AssignmentSource>,
            },
    {
        match account_type {
            AccountType::Student => Some(AssignmentSource::StudentClasses),
            AccountType::Teacher => Some(AssignmentSource::TeacherClasses),
            _ => None,
        }
    }
}

/// Completing an assignment is idempotent: once marked, completing it again
/// at any time asks for nothing more.
pub proof fn completion_is_idempotent(a: Assignment, now: u128)
    requires
        a.completed.0,
    ensures
        completion_step_at(a, now) == CompletionStep::AlreadyCompleted,
{
}

/// The closing time of `a` has passed at `now`.
pub open spec fn closes_before(a: Assignment, now: u128) -> bool {
    exists|c: i64| a.close_time == Some(c) && (c as u128) < now
}

/// The opening time of `a` has not come at `now`.
pub open spec fn opens_after(a: Assignment, now: u128) -> bool {
    exists|o: i64| a.open_time == Some(o) && (o as u128) > now
}

/// What completing an assignment comes to, case by case: a completed
/// assignment asks for nothing more; otherwise a closed one is refused
/// whether or not it has opened, one that has not opened is refused
/// whatever its closing time (as long as that has not passed), and the
/// completion is recorded exactly when `now` lies within the window.
pub proof fn completion_follows_the_window(a: Assignment, now: u128)
    ensures
        a.completed.0 ==> completion_step_at(a, now) == CompletionStep::AlreadyCompleted,
        !a.completed.0 && closes_before(a, now) ==> completion_step_at(a, now) == CompletionStep::Closed,
        !a.completed.0 && !closes_before(a, now) && opens_after(a, now) ==> completion_step_at(a, now) == CompletionStep::NotOpen,
        (completion_step_at(a, now) == CompletionStep::Record) <==> (!a.completed.0 && !closes_before(a, now) && !opens_after(a, now)),
{
    if let Some(c) = a.close_time {
        if (c as u128) < now {
            assert(closes_before(a, now));
        }
    }
    if let Some(o) = a.open_time {
        if (o as u128) > now {
            assert(opens_after(a, now));
        }
    }
}

/// An assignment whose opening time is after `now` is not completed at
/// `now`, whatever its closing time, unless that time has passed too (then
/// it is closed) or it was completed before.
pub proof fn not_open_before_opening(a: Assignment, now: u128, o: i64)
    requires
        !a.completed.0,
        a.open_time == Some(o),
        (o as u128) > now,
    ensures
        completion_step_at(a, now) == if closes_before(a, now) {
            CompletionStep::Closed
        } else {
            CompletionStep::NotOpen
        },
        completion_step_at(a, now) != CompletionStep::Record,
{
    completion_follows_the_window(a, now);
    assert(opens_after(a, now));
}

} // verus!
