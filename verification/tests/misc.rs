use qwiz::assignment::routes::{seconds_of, GetAssignmentData};
use qwiz::assignment::{Assignment, AssignmentSource, CompletionStep};
use qwiz::account::AccountType;
use qwiz::class::routes::GetClassData;
use qwiz::class::{Class, ClassError};
use qwiz::qwiz::routes::{page_number, page_offset};
use qwiz::route::Method;
use qwiz::text::decimal_string;
use qwiz::vote::routes::GetVoteData;
use qwiz::vote::{Vote, VoteData, VoteError};
use qwiz::{db_err_to_status, default_catcher, root_info, DbError, DbErrorKind, OptBool, Status};

#[test]
fn database_errors_to_status() {
    let e = |kind| DbError { kind, message: String::new() };
    let nf = Status { code: 404 };
    assert_eq!(db_err_to_status(&e(DbErrorKind::RowNotFound), nf), nf);
    assert_eq!(db_err_to_status(&e(DbErrorKind::Database), nf), nf);
    assert_eq!(db_err_to_status(&e(DbErrorKind::Other), nf), Status { code: 500 });
}

#[test]
fn opt_bool_reads_missing_as_false() {
    assert!(!*OptBool::from(None));
    assert!(*OptBool::from(Some(true)));
    assert!(*OptBool::from(true));
    assert!(!*OptBool::from(Some(false)));
}

#[test]
fn decimals_and_catcher() {
    assert_eq!(decimal_string(0), "0");
    assert_eq!(decimal_string(-45), "-45");
    assert_eq!(decimal_string(i64::MIN), i64::MIN.to_string());
    assert_eq!(decimal_string(1234567890), "1234567890");
    assert_eq!(default_catcher(Status { code: 404 }), "404");
}

#[test]
fn info_texts_and_route_tables() {
    assert!(root_info().contains("/account"));
    assert!(qwiz::account::routes::account_info().contains("POST /account/verify"));
    let routes = qwiz::account::routes::all();
    assert_eq!(routes.len(), 9);
    assert_eq!(routes[1].path, "/account/<id>");
    assert_eq!(routes[7].method, Method::Patch);
    assert_eq!(qwiz::vote::routes::all().len(), 4);
    assert_eq!(qwiz::class::routes::all()[5].name, "get_account_classes");
    assert_eq!(qwiz::assignment::routes::all().len(), 2);
    assert_eq!(qwiz::live::routes::all()[0].path, "/live/<id>");
    assert_eq!(qwiz::media::routes::all().len(), 2);
    assert_eq!(qwiz::question::routes::all().len(), 5);
    assert_eq!(qwiz::qwiz::routes::all()[2].path, "/qwiz/best?<page>&<search>");
    assert!(qwiz::media::routes::media_info().contains("MediaType"));
    assert!(qwiz::question::routes::question_info().contains("/question"));
    assert!(qwiz::qwiz::routes::qwiz_info().contains("/qwiz/recent"));
    assert!(qwiz::vote::routes::vote_info().contains("voter_password"));
    assert!(qwiz::class::routes::class_info().contains("teacher_password"));
}

fn assignment(open: Option<i64>, close: Option<i64>, done: bool) -> Assignment {
    Assignment { id: 1, qwiz_id: 2, qwiz_name: None, class_id: 3, open_time: open, close_time: close, completed: OptBool(done) }
}

#[test]
fn completion_window() {
    assert_eq!(assignment(None, None, true).completion_step(0), CompletionStep::AlreadyCompleted);
    assert_eq!(assignment(None, Some(1000), false).completion_step(1001), CompletionStep::Closed);
    assert_eq!(assignment(None, Some(1000), false).completion_step(1000), CompletionStep::Record);
    assert_eq!(assignment(Some(500), None, false).completion_step(499), CompletionStep::NotOpen);
    assert_eq!(assignment(Some(500), Some(1000), false).completion_step(700), CompletionStep::Record);
    assert_eq!(assignment(None, Some(-1), false).completion_step(5), CompletionStep::Record);
    let mut a = assignment(None, None, false);
    a.mark_completed();
    assert_eq!(a.completion_step(0), CompletionStep::AlreadyCompleted);
    assert_eq!(Assignment::source_for(AccountType::Parent), None);
    assert_eq!(Assignment::source_for(AccountType::Student), Some(AssignmentSource::StudentClasses));
    assert_eq!(Assignment::source_for(AccountType::Teacher), Some(AssignmentSource::TeacherClasses));
}

#[test]
fn assignment_data_in_seconds() {
    assert_eq!(seconds_of(1999), 1);
    assert_eq!(seconds_of(-1), -1);
    assert_eq!(seconds_of(-1000), -1);
    assert_eq!(seconds_of(-1001), -2);
    let d = GetAssignmentData::from(assignment(Some(1500), None, true));
    assert_eq!(d.qwiz_name, "None");
    assert_eq!(d.open_time, Some(1));
    assert_eq!(d.close_time, None);
    assert!(d.completed);
}

#[test]
fn class_checks_and_texts() {
    assert!(matches!(Class::check_teacher(None, 3), Err(ClassError::AccountNotFound(3))));
    assert!(matches!(Class::check_teacher(Some(AccountType::Student), 3), Err(ClassError::NotATeacher(3))));
    assert!(Class::check_teacher(Some(AccountType::Teacher), 3).is_ok());
    assert!(matches!(Class::check_student(Some(AccountType::Parent), 4), Err(ClassError::NotAStudent(4))));
    assert!(Class::check_student(Some(AccountType::Student), 4).is_ok());
    assert_eq!(ClassError::AccountNotFound(-7).to_string(), "Account with id -7 not found");
    assert_eq!(ClassError::NotAStudent(12).to_string(), "Account with id 12 is not a student");
    assert_eq!(ClassError::NotATeacher(0).to_string(), "Account with id 0 is not a teacher");
    let e = ClassError::from(DbError { kind: DbErrorKind::Database, message: "dup".to_string() });
    assert_eq!(e.to_string(), "dup");
    let c = GetClassData::from_class(Class { id: 1, teacher_id: 2, name: "math".to_string() }, None, vec![5, 6]);
    assert_eq!(c.teacher_name, "None");
    assert_eq!(c.student_ids, vec![5, 6]);
}

#[test]
fn votes() {
    let data = VoteData { voter_id: 1, qwiz_id: 2 };
    assert!(matches!(Vote::check_vote_data(None, &data), Err(VoteError::QwizNotFound)));
    assert!(matches!(Vote::check_vote_data(Some(1), &data), Err(VoteError::SelfVote)));
    assert!(Vote::check_vote_data(Some(3), &data).is_ok());
    let d = GetVoteData::from_votes(vec![Vote { voter_id: 4, qwiz_id: 2 }, Vote { voter_id: 9, qwiz_id: 2 }]);
    assert_eq!(d.voter_ids, vec![4, 9]);
    let e = VoteError::from(DbError { kind: DbErrorKind::Other, message: "x".to_string() });
    assert!(matches!(e, VoteError::Sqlx(_)));
}

#[test]
fn pages() {
    assert_eq!(page_number(None), 0);
    assert_eq!(page_number(Some(3)), 3);
    assert_eq!(page_offset(Some(2)), 100);
    assert_eq!(page_offset(None), 0);
}
