use qwiz::account::CreateAccountReply;
use qwiz::account::DeleteAccountAction;
use qwiz::account::DeleteAccountEvent;
use qwiz::account::NewAccountError;
use qwiz::account::create_account_reply;
use qwiz::account::delete_account_step;
use qwiz::class::AddStudentsAction;
use qwiz::class::AddStudentsEvent;
use qwiz::class::CreateClassAction;
use qwiz::class::CreateClassEvent;
use qwiz::class::DeleteClassAction;
use qwiz::class::DeleteClassEvent;
use qwiz::class::add_students_step;
use qwiz::class::create_class_step;
use qwiz::class::delete_class_step;
use qwiz::media::MediaError;
use qwiz::question::DeleteQuestionAction;
use qwiz::question::DeleteQuestionEvent;
use qwiz::question::QuestionError;
use qwiz::question::delete_question_step;
use qwiz::qwiz::CreateQwizAction;
use qwiz::qwiz::CreateQwizEvent;
use qwiz::qwiz::CreateQwizState;
use qwiz::qwiz::QwizPatch;
use qwiz::qwiz::QwizPatchAction;
use qwiz::qwiz::QwizPatchEvent;
use qwiz::qwiz::QwizPatchState;
use qwiz::qwiz::QwizWrite;
use qwiz::qwiz::QwizWriteResult;
use qwiz::qwiz::create_qwiz_step;
use qwiz::qwiz::update_qwiz_step;
use qwiz::account::{
    update_account_step, AccountError, AccountPatch, AccountPatchAction, AccountPatchEvent, AccountPatchState, AccountWrite,
    AccountWriteResult, PasswordOutcome,
};
use qwiz::class::{account_classes_step, ClassError, ClassesAction, ClassesEvent};
use qwiz::question::routes::all as question_routes;
use qwiz::question::{update_question_step, QuestionPatch, QuestionPatchAction, QuestionPatchEvent, QuestionPatchState, QuestionWrite};
use qwiz::route::Method;
use qwiz::vote::{
    add_vote_step, delete_vote_step, vote_error_status, DeleteVoteAction, DeleteVoteEvent, Vote, VoteAction, VoteError, VoteEvent,
};
use qwiz::{DbError, DbErrorKind, Status};

fn db(kind: DbErrorKind) -> DbError {
    DbError { kind, message: "failure".to_string() }
}

fn answered(a: VoteAction) -> Option<u16> {
    match a {
        VoteAction::Answer(s) => Some(s.code),
        _ => None,
    }
}

#[test]
fn vote_errors_to_status() {
    assert_eq!(vote_error_status(&VoteError::Sqlx(db(DbErrorKind::Other))), Status { code: 500 });
    assert_eq!(vote_error_status(&VoteError::QwizNotFound), Status { code: 404 });
    assert_eq!(vote_error_status(&VoteError::SelfVote), Status { code: 403 });
}

#[test]
fn casting_a_vote_step_by_step() {
    assert!(matches!(add_vote_step(VoteEvent::Start), VoteAction::CheckVoter));
    let voter = |o| add_vote_step(VoteEvent::VoterChecked(o));
    assert_eq!(answered(voter(PasswordOutcome::NoAccount(db(DbErrorKind::RowNotFound)))), Some(401));
    assert_eq!(answered(voter(PasswordOutcome::CheckFailed)), Some(500));
    assert_eq!(answered(voter(PasswordOutcome::Answered(false))), Some(401));
    assert!(matches!(voter(PasswordOutcome::Answered(true)), VoteAction::CheckExists));
    assert_eq!(answered(add_vote_step(VoteEvent::Exists(Ok(true)))), Some(204));
    assert!(matches!(add_vote_step(VoteEvent::Exists(Ok(false))), VoteAction::Store));
    assert_eq!(answered(add_vote_step(VoteEvent::Exists(Err(VoteError::QwizNotFound)))), Some(404));
    assert_eq!(answered(add_vote_step(VoteEvent::Stored(Ok(())))), Some(200));
    assert_eq!(answered(add_vote_step(VoteEvent::Stored(Err(VoteError::SelfVote)))), Some(403));
    assert_eq!(answered(add_vote_step(VoteEvent::Stored(Err(VoteError::Sqlx(db(DbErrorKind::Database)))))), Some(500));
}

#[test]
fn withdrawing_a_vote_step_by_step() {
    let code = |a| match a {
        DeleteVoteAction::Answer(s) => Some(s.code),
        _ => None,
    };
    assert!(matches!(delete_vote_step(DeleteVoteEvent::Start), DeleteVoteAction::CheckVoter));
    assert_eq!(code(delete_vote_step(DeleteVoteEvent::VoterChecked(PasswordOutcome::Answered(false)))), Some(401));
    assert!(matches!(delete_vote_step(DeleteVoteEvent::VoterChecked(PasswordOutcome::Answered(true))), DeleteVoteAction::Find));
    assert_eq!(code(delete_vote_step(DeleteVoteEvent::Found(Ok(None)))), Some(204));
    match delete_vote_step(DeleteVoteEvent::Found(Ok(Some(Vote { voter_id: 3, qwiz_id: 9 })))) {
        DeleteVoteAction::Delete(v) => assert_eq!((v.voter_id, v.qwiz_id), (3, 9)),
        _ => panic!("unexpected action"),
    }
    assert_eq!(code(delete_vote_step(DeleteVoteEvent::Found(Err(VoteError::QwizNotFound)))), Some(404));
    assert_eq!(code(delete_vote_step(DeleteVoteEvent::Deleted(Ok(())))), Some(200));
    assert_eq!(code(delete_vote_step(DeleteVoteEvent::Deleted(Err(db(DbErrorKind::Other))))), Some(500));
}

#[test]
fn listing_an_account_s_classes() {
    let code = |a| match a {
        ClassesAction::Answer(s) => Some(s.code),
        _ => None,
    };
    assert!(matches!(account_classes_step(ClassesEvent::Start), ClassesAction::CheckAccount));
    let checked = |o| account_classes_step(ClassesEvent::AccountChecked(o));
    assert_eq!(code(checked(PasswordOutcome::NoAccount(db(DbErrorKind::RowNotFound)))), Some(404));
    assert_eq!(code(checked(PasswordOutcome::NoAccount(db(DbErrorKind::Other)))), Some(500));
    assert_eq!(code(checked(PasswordOutcome::Answered(false))), Some(401));
    assert!(matches!(checked(PasswordOutcome::Answered(true)), ClassesAction::LookUpStudentClasses));
    assert!(matches!(account_classes_step(ClassesEvent::StudentClasses(Ok(()))), ClassesAction::BuildData));
    assert!(matches!(
        account_classes_step(ClassesEvent::StudentClasses(Err(ClassError::NotAStudent(7)))),
        ClassesAction::LookUpTeacherClasses
    ));
    assert_eq!(code(account_classes_step(ClassesEvent::StudentClasses(Err(ClassError::AccountNotFound(7))))), Some(404));
    assert_eq!(code(account_classes_step(ClassesEvent::TeacherClasses(Err(ClassError::NotATeacher(7))))), Some(500));
    match account_classes_step(ClassesEvent::TeacherClasses(Err(ClassError::NotAStudent(7)))) {
        ClassesAction::Refuse(t) => assert_eq!(t, "Account with id 7 is neither a teacher nor a student"),
        _ => panic!("unexpected action"),
    }
    assert_eq!(
        code(account_classes_step(ClassesEvent::TeacherClasses(Err(ClassError::Sqlx(db(DbErrorKind::Database)))))),
        Some(500)
    );
    assert!(matches!(account_classes_step(ClassesEvent::DataBuilt(Ok(()))), ClassesAction::Send));
    assert_eq!(code(account_classes_step(ClassesEvent::DataBuilt(Err(db(DbErrorKind::Other))))), Some(500));
}

#[test]
fn changing_an_account_writes_fields_in_order() {
    let patch = AccountPatch { new_username: true, new_account_type: false, new_password: true, new_profile_picture: true };
    let s0 = AccountPatchState { patch, written: 0 };
    let (s, a) = update_account_step(s0, AccountPatchEvent::Start);
    assert!(matches!(a, AccountPatchAction::CheckAccount));
    let (s, a) = update_account_step(s, AccountPatchEvent::AccountChecked(PasswordOutcome::Answered(true)));
    assert!(matches!(a, AccountPatchAction::Write(AccountWrite::Username)));
    let (s, a) = update_account_step(s, AccountPatchEvent::Written(AccountWriteResult::Username(Ok(true))));
    assert!(matches!(a, AccountPatchAction::Write(AccountWrite::Password)));
    let (s, a) = update_account_step(s, AccountPatchEvent::Written(AccountWriteResult::Password(Ok(true))));
    assert!(matches!(a, AccountPatchAction::Write(AccountWrite::ProfilePicture)));
    let (_, a) = update_account_step(s, AccountPatchEvent::Written(AccountWriteResult::ProfilePicture(Ok(()))));
    assert!(matches!(a, AccountPatchAction::Answer(Status { code: 200 })));

    let (_, a) = update_account_step(s0, AccountPatchEvent::AccountChecked(PasswordOutcome::NoAccount(db(DbErrorKind::RowNotFound))));
    assert!(matches!(a, AccountPatchAction::Answer(Status { code: 404 })));
    let (_, a) = update_account_step(s0, AccountPatchEvent::AccountChecked(PasswordOutcome::Answered(false)));
    assert!(matches!(a, AccountPatchAction::Answer(Status { code: 401 })));
    let (_, a) = update_account_step(s0, AccountPatchEvent::Written(AccountWriteResult::Username(Ok(false))));
    assert!(matches!(a, AccountPatchAction::Refuse("bad username")));
    let (_, a) = update_account_step(s0, AccountPatchEvent::Written(AccountWriteResult::Username(Err(db(DbErrorKind::Database)))));
    assert!(matches!(a, AccountPatchAction::Answer(Status { code: 409 })));
    let (_, a) = update_account_step(s0, AccountPatchEvent::Written(AccountWriteResult::AccountType(Err(db(DbErrorKind::Database)))));
    assert!(matches!(a, AccountPatchAction::Refuse("bad account type")));
    let (_, a) = update_account_step(s0, AccountPatchEvent::Written(AccountWriteResult::Password(Ok(false))));
    assert!(matches!(a, AccountPatchAction::Refuse("bad password")));
    let (_, a) = update_account_step(s0, AccountPatchEvent::Written(AccountWriteResult::Password(Err(db(DbErrorKind::Other)))));
    assert!(matches!(a, AccountPatchAction::Answer(Status { code: 500 })));
    let (_, a) = update_account_step(s0, AccountPatchEvent::Written(AccountWriteResult::ProfilePicture(Err(AccountError::IO("disk".to_string())))));
    assert!(matches!(a, AccountPatchAction::Answer(Status { code: 500 })));
}

#[test]
fn changing_a_question_writes_fields_in_order() {
    let patch = QuestionPatch { new_index: false, new_body: true, new_answers: 2, new_correct: false, new_embed_url: true };
    let s0 = QuestionPatchState { patch, written: 0 };
    let (s, a) = update_question_step(s0, QuestionPatchEvent::Start);
    assert!(matches!(a, QuestionPatchAction::LookUpQuestion));
    let (s, a) = update_question_step(s, QuestionPatchEvent::QuestionFound(true));
    assert!(matches!(a, QuestionPatchAction::CheckCreator));
    let (s, a) = update_question_step(s, QuestionPatchEvent::CreatorChecked(Some(PasswordOutcome::Answered(true))));
    assert!(matches!(a, QuestionPatchAction::Write(QuestionWrite::Body)));
    let (s, a) = update_question_step(s, QuestionPatchEvent::Written(true));
    assert!(matches!(a, QuestionPatchAction::Write(QuestionWrite::Answer(0))));
    let (s, a) = update_question_step(s, QuestionPatchEvent::Written(true));
    assert!(matches!(a, QuestionPatchAction::Write(QuestionWrite::Answer(1))));
    let (failed, a) = update_question_step(s, QuestionPatchEvent::Written(false));
    assert!(matches!(a, QuestionPatchAction::Refuse("Bad answer")));
    assert_eq!(failed, s);
    let (s, a) = update_question_step(s, QuestionPatchEvent::Written(true));
    assert!(matches!(a, QuestionPatchAction::Write(QuestionWrite::EmbedUrl)));
    let (_, a) = update_question_step(s, QuestionPatchEvent::Written(true));
    assert!(matches!(a, QuestionPatchAction::Answer(Status { code: 200 })));

    let (_, a) = update_question_step(s0, QuestionPatchEvent::QuestionFound(false));
    assert!(matches!(a, QuestionPatchAction::Answer(Status { code: 404 })));
    let (_, a) = update_question_step(s0, QuestionPatchEvent::CreatorChecked(None));
    assert!(matches!(a, QuestionPatchAction::Answer(Status { code: 404 })));
    let (_, a) = update_question_step(s0, QuestionPatchEvent::CreatorChecked(Some(PasswordOutcome::CheckFailed)));
    assert!(matches!(a, QuestionPatchAction::Answer(Status { code: 500 })));
    let (_, a) = update_question_step(s0, QuestionPatchEvent::CreatorChecked(Some(PasswordOutcome::Answered(false))));
    assert!(matches!(a, QuestionPatchAction::Answer(Status { code: 401 })));
    let (_, a) = update_question_step(s0, QuestionPatchEvent::Written(false));
    assert!(matches!(a, QuestionPatchAction::Refuse("Bad body")));
}

#[test]
fn empty_question_change_is_ok_at_once() {
    let patch = QuestionPatch { new_index: false, new_body: false, new_answers: 0, new_correct: false, new_embed_url: false };
    let (_, a) = update_question_step(
        QuestionPatchState { patch, written: 0 },
        QuestionPatchEvent::CreatorChecked(Some(PasswordOutcome::Answered(true))),
    );
    assert!(matches!(a, QuestionPatchAction::Answer(Status { code: 200 })));
}

#[test]
fn question_delete_route_is_the_documented_one() {
    let routes = question_routes();
    let delete = routes.iter().find(|r| r.method == Method::Delete).unwrap();
    assert_eq!(delete.path, "/question/<qwiz_uuid>");
    assert_eq!(delete.name, "delete_question");
}

#[test]
fn deleting_an_account_step_by_step() {
    let code = |a| match a {
        DeleteAccountAction::Answer(s) => Some(s.code),
        _ => None,
    };
    assert!(matches!(delete_account_step(DeleteAccountEvent::Start), DeleteAccountAction::CheckExists));
    assert_eq!(code(delete_account_step(DeleteAccountEvent::Exists(false))), Some(404));
    assert!(matches!(delete_account_step(DeleteAccountEvent::Exists(true)), DeleteAccountAction::CheckAccount));
    assert_eq!(code(delete_account_step(DeleteAccountEvent::AccountChecked(PasswordOutcome::NoAccount(db(DbErrorKind::RowNotFound))))), Some(500));
    assert_eq!(code(delete_account_step(DeleteAccountEvent::AccountChecked(PasswordOutcome::Answered(false)))), Some(401));
    assert!(matches!(delete_account_step(DeleteAccountEvent::AccountChecked(PasswordOutcome::Answered(true))), DeleteAccountAction::Delete));
    assert_eq!(code(delete_account_step(DeleteAccountEvent::Deleted(true))), Some(200));
    assert_eq!(code(delete_account_step(DeleteAccountEvent::Deleted(false))), Some(500));
}

#[test]
fn creating_an_account_is_answered() {
    match create_account_reply(Ok(12)) {
        CreateAccountReply::Created(t) => assert_eq!(t, "account/12"),
        _ => panic!("expected an address"),
    }
    assert!(matches!(
        create_account_reply(Err(NewAccountError::Base(AccountError::IO("disk".to_string())))),
        CreateAccountReply::Answer(Status { code: 500 })
    ));
    match create_account_reply(Err(NewAccountError::UsernameTaken)) {
        CreateAccountReply::Refuse(t) => assert_eq!(t, "username is taken"),
        _ => panic!("expected a refusal"),
    }
}

#[test]
fn class_changes_step_by_step() {
    assert!(matches!(create_class_step(CreateClassEvent::Start), CreateClassAction::CheckTeacher));
    assert!(matches!(
        create_class_step(CreateClassEvent::TeacherChecked(PasswordOutcome::Answered(false))),
        CreateClassAction::Answer(Status { code: 401 })
    ));
    match create_class_step(CreateClassEvent::Made(Ok(5))) {
        CreateClassAction::Created(t) => assert_eq!(t, "/api/class/5"),
        _ => panic!("expected an address"),
    }
    match create_class_step(CreateClassEvent::Made(Err(ClassError::NotATeacher(4)))) {
        CreateClassAction::Refuse(t) => assert_eq!(t, "Account with id 4 is not a teacher"),
        _ => panic!("expected a refusal"),
    }
    assert!(matches!(
        add_students_step(AddStudentsEvent::ClassFound(Err(db(DbErrorKind::RowNotFound)))),
        AddStudentsAction::Answer(Status { code: 404 })
    ));
    assert!(matches!(
        add_students_step(AddStudentsEvent::TeacherChecked(PasswordOutcome::CheckFailed)),
        AddStudentsAction::Answer(Status { code: 500 })
    ));
    match add_students_step(AddStudentsEvent::Added(Err(ClassError::NotAStudent(8)))) {
        AddStudentsAction::Refuse(t) => assert_eq!(t, "Account with id 8 is not a student"),
        _ => panic!("expected a refusal"),
    }
    assert!(matches!(add_students_step(AddStudentsEvent::Added(Ok(()))), AddStudentsAction::Answer(Status { code: 200 })));
    let ok = PasswordOutcome::Answered(true);
    assert!(matches!(delete_class_step(true, DeleteClassEvent::TeacherChecked(ok)), DeleteClassAction::RemoveStudents));
    assert!(matches!(
        delete_class_step(false, DeleteClassEvent::TeacherChecked(PasswordOutcome::Answered(true))),
        DeleteClassAction::DeleteClass
    ));
    assert!(matches!(
        delete_class_step(false, DeleteClassEvent::Done(Err(db(DbErrorKind::Other)))),
        DeleteClassAction::Answer(Status { code: 500 })
    ));
}

#[test]
fn deleting_a_question_step_by_step() {
    assert!(matches!(delete_question_step(DeleteQuestionEvent::QuestionFound(false)), DeleteQuestionAction::Answer(Status { code: 404 })));
    assert!(matches!(delete_question_step(DeleteQuestionEvent::CreatorChecked(None)), DeleteQuestionAction::Answer(Status { code: 404 })));
    assert!(matches!(delete_question_step(DeleteQuestionEvent::CreatorChecked(Some(PasswordOutcome::Answered(false)))), DeleteQuestionAction::Answer(Status { code: 401 })));
    assert!(matches!(delete_question_step(DeleteQuestionEvent::CreatorChecked(Some(PasswordOutcome::Answered(true)))), DeleteQuestionAction::Delete));
    assert!(matches!(delete_question_step(DeleteQuestionEvent::Deleted(true)), DeleteQuestionAction::Answer(Status { code: 200 })));
}

#[test]
fn qwiz_changes_step_by_step() {
    let s0 = QwizPatchState { patch: QwizPatch { new_name: true, new_thumbnail: true }, written: 0 };
    let (s, a) = update_qwiz_step(s0, QwizPatchEvent::CreatorChecked(PasswordOutcome::Answered(true)));
    assert!(matches!(a, QwizPatchAction::Write(QwizWrite::Name)));
    let (s, a) = update_qwiz_step(s, QwizPatchEvent::Written(QwizWriteResult::Name(true)));
    assert!(matches!(a, QwizPatchAction::Write(QwizWrite::Thumbnail)));
    let (_, a) = update_qwiz_step(s, QwizPatchEvent::Written(QwizWriteResult::Thumbnail(Err(MediaError::IO("x".to_string())))));
    assert!(matches!(a, QwizPatchAction::Answer(Status { code: 500 })));
    let (_, a) = update_qwiz_step(s, QwizPatchEvent::Written(QwizWriteResult::Thumbnail(Ok(()))));
    assert!(matches!(a, QwizPatchAction::Answer(Status { code: 200 })));
    let (_, a) = update_qwiz_step(s0, QwizPatchEvent::Written(QwizWriteResult::Name(false)));
    assert!(matches!(a, QwizPatchAction::Refuse("Bad name")));
    let (_, a) = update_qwiz_step(s0, QwizPatchEvent::QwizFound(Err(db(DbErrorKind::RowNotFound))));
    assert!(matches!(a, QwizPatchAction::Answer(Status { code: 404 })));

    let c0 = CreateQwizState { qwiz_id: 0, failure: None };
    let (_, a) = create_qwiz_step(c0, CreateQwizEvent::CreatorChecked(PasswordOutcome::NoAccount(db(DbErrorKind::RowNotFound))));
    assert!(matches!(a, CreateQwizAction::Answer(Status { code: 401 })));
    let (c, a) = create_qwiz_step(c0, CreateQwizEvent::QwizMade(Ok(31)));
    assert!(matches!(a, CreateQwizAction::StoreQuestions));
    match create_qwiz_step(c, CreateQwizEvent::QuestionsStored(Ok(()))).1 {
        CreateQwizAction::Created(t) => assert_eq!(t, "/api/qwiz/31"),
        _ => panic!("expected an address"),
    }
    let (c, a) = create_qwiz_step(c, CreateQwizEvent::QuestionsStored(Err(QuestionError::Sqlx(db(DbErrorKind::Database)))));
    assert!(matches!(a, CreateQwizAction::RemoveQwiz));
    let (_, a) = create_qwiz_step(c, CreateQwizEvent::QwizRemoved(Ok(())));
    assert!(matches!(a, CreateQwizAction::Answer(Status { code: 400 })));
    let (_, a) = create_qwiz_step(c, CreateQwizEvent::QwizRemoved(Err(db(DbErrorKind::Other))));
    assert!(matches!(a, CreateQwizAction::Answer(Status { code: 500 })));
    let (_, a) = create_qwiz_step(c0, CreateQwizEvent::QwizMade(Err(MediaError::Sqlx(db(DbErrorKind::Other)))));
    assert!(matches!(a, CreateQwizAction::Answer(Status { code: 500 })));
}
