//! Classes: a teacher and the students in the class.

pub mod routes;

use crate::account::{gate_password, password_gate, AccountType, PasswordOutcome};
use crate::text::{append_decimal, decimal, located};
use crate::{spec_db_err_to_status, DbError, Status};
use vstd::prelude::*;

verus! {

/// A new class as a teacher submits it.
#[derive(Debug)]
pub struct NewClassData {
    pub teacher_id: i32,
    pub name: String,
    pub student_ids: Option<Vec<i32>>,
}

/// Why a class operation failed.
#[derive(Debug)]
pub enum ClassError {
    Sqlx(DbError),
    AccountNotFound(i32),
    NotATeacher(i32),
    NotAStudent(i32),
}

impl From<DbError> for ClassError {
    fn from(value: DbError) -> (r: Self) {
        ClassError::Sqlx(value)
    }
}

impl vstd::std_specs::convert::FromSpecImpl<DbError> for ClassError {
    open spec fn obeys_from_spec() -> bool {
        true
    }

    open spec fn from_spec(v: DbError) -> Self {
        ClassError::Sqlx(v)
    }
}

/// The text a client is shown for a class error.
pub open spec fn class_error_text(e: ClassError) -> Seq<char> {
    match e {
        ClassError::Sqlx(d) => d.message@,
        ClassError::AccountNotFound(id) => "Account with id "@ + decimal(id as int) + " not found"@,
        ClassError::NotAStudent(id) => "Account with id "@ + decimal(id as int) + " is not a student"@,
        ClassError::NotATeacher(id) => "Account with id "@ + decimal(id as int) + " is not a teacher"@,
    }
}

fn account_message(id: i32, tail: &str) -> (r: String)
    ensures
        r@ == "Account with id "@ + decimal(id as int) + tail@,
{
    let mut s = String::from_str("Account with id ");
    append_decimal(&mut s, id as i64);
    s.append(tail);
    s
}

impl ClassError {
    /// The text a client is shown for this error.
    pub fn to_string(&self) -> (r: String)
        ensures
            r@ == class_error_text(*self),
    {
        match self {
            ClassError::Sqlx(e) => e.message.clone(),
            ClassError::AccountNotFound(id) => account_message(*id, " not found"),
            ClassError::NotAStudent(id) => account_message(*id, " is not a student"),
            ClassError::NotATeacher(id) => account_message(*id, " is not a teacher"),
        }
    }
}

/// A stored class.
#[derive(Debug)]
pub struct Class {
    pub id: i32,
    pub teacher_id: i32,
    pub name: String,
}

/// The outcome of checking that account `id`, found with kind `found`
/// (or not found), has the kind `wanted`.
pub open spec fn role_check(found: Option<AccountType>, id: i32, wanted: AccountType) -> Result<(), ClassError> {
    match found {
        None => Err(ClassError::AccountNotFound(id)),
        Some(t) => if t == wanted {
            Ok(())
        } else if wanted == AccountType::Teacher {
            Err(ClassError::NotATeacher(id))
        } else {
            Err(ClassError::NotAStudent(id))
        },
    }
}

/// A role check accepts exactly the accounts of the wanted kind: a missing
/// account is reported missing, a student check refuses every teacher and
/// parent as not a student, and a teacher check refuses every student and
/// parent as not a teacher.
pub proof fn role_check_accepts_exactly_the_role(found: Option<AccountType>, id: i32)
    ensures
        role_check(found, id, AccountType::Student) is Ok <==> found == Some(AccountType::Student),
        role_check(found, id, AccountType::Teacher) is Ok <==> found == Some(AccountType::Teacher),
        found is None ==> role_check(found, id, AccountType::Student) == Err::<(), ClassError>(ClassError::AccountNotFound(id))
            && role_check(found, id, AccountType::Teacher) == Err::<(), ClassError>(ClassError::AccountNotFound(id)),
        found == Some(AccountType::Teacher) ==> role_check(found, id, AccountType::Student) == Err::<(), ClassError>(ClassError::NotAStudent(id)),
        found == Some(AccountType::Parent) ==> role_check(found, id, AccountType::Student) == Err::<(), ClassError>(ClassError::NotAStudent(id)),
        found == Some(AccountType::Student) ==> role_check(found, id, AccountType::Teacher) == Err::<(), ClassError>(ClassError::NotATeacher(id)),
        found == Some(AccountType::Parent) ==> role_check(found, id, AccountType::Teacher) == Err::<(), ClassError>(ClassError::NotATeacher(id)),
{
}

impl Class {
    /// The check made before the classes of a teacher are listed or a class
    /// is created for them: the account must exist and be a teacher.
    pub fn check_teacher(found: Option<AccountType>, teacher_id: i32) -> (r: Result<(), ClassError>)
        ensures
            r == role_check(found, teacher_id, AccountType::Teacher),
            r is Ok <==> found == Some(AccountType::Teacher),
            found is None ==> r == Err::<(), ClassError>(ClassError::AccountNotFound(teacher_id)),
            found matches Some(t) && t != AccountType::Teacher ==> r == Err::<(), ClassError>(ClassError::NotATeacher(teacher_id)),
    {
        match found {
            None => Err(ClassError::AccountNotFound(teacher_id)),
            Some(t) => {
                if t != AccountType::Teacher {
                    Err(ClassError::NotATeacher(teacher_id))
                } else {
                    Ok(())
                }
            },
        }
    }

    /// The check made before the classes of a student are listed: the
    /// account must exist and be a student.
    pub fn check_student(found: Option<AccountType>, student_id: i32) -> (r: Result<(), ClassError>)
        ensures
            r == role_check(found, student_id, AccountType::Student),
            r is Ok <==> found == Some(AccountType::Student),
            found is None ==> r == Err::<(), ClassError>(ClassError::AccountNotFound(student_id)),
            found matches Some(t) && t != AccountType::Student ==> r == Err::<(), ClassError>(ClassError::NotAStudent(student_id)),
    {
        match found {
            None => Err(ClassError::AccountNotFound(student_id)),
            Some(t) => {
                if t != AccountType::Student {
                    Err(ClassError::NotAStudent(student_id))
                } else {
                    Ok(())
                }
            },
        }
    }
}

/// The text a client is shown when account `id` has no classes to list
/// because it is neither a teacher nor a student.
pub open spec fn neither_role_text(id: i32) -> Seq<char> {
    "Account with id "@ + decimal(id as int) + " is neither a teacher nor a student"@
}

/// What the service learned while listing an account's classes.
#[derive(Debug)]
pub enum ClassesEvent {
    /// The request came in.
    Start,
    /// The account's password was checked.
    AccountChecked(PasswordOutcome),
    /// The classes the account is a student in were looked up.
    StudentClasses(Result<(), ClassError>),
    /// The classes the account teaches were looked up.
    TeacherClasses(Result<(), ClassError>),
    /// The data shown for each class was gathered, or not.
    DataBuilt(Result<(), DbError>),
}

/// What the service does next while listing an account's classes.
#[derive(Debug)]
pub enum ClassesAction {
    /// Check the account's password.
    CheckAccount,
    /// Look up the classes the account is a student in.
    LookUpStudentClasses,
    /// Look up the classes the account teaches.
    LookUpTeacherClasses,
    /// Gather the data shown for each class found.
    BuildData,
    /// Send the gathered class data.
    Send,
    /// Answer the request with a status.
    Answer(Status),
    /// Answer 400 Bad Request with this text.
    Refuse(String),
}

/// The next step of listing an account's classes: the account's password
/// must be right; the classes it is a student in are listed, or, when it is
/// not a student, the classes it teaches; a teacher lookup that finds the
/// account is not a student is refused with a text, and any other failed
/// teacher lookup (a missing account, an account that is not a teacher, a
/// database failure) is answered 500, as are database failures elsewhere.
pub fn account_classes_step(event: ClassesEvent) -> (r: ClassesAction)
    ensures
        event is Start ==> r == ClassesAction::CheckAccount,
        event matches ClassesEvent::AccountChecked(o) ==> r == match o {
            PasswordOutcome::NoAccount(e) => ClassesAction::Answer(spec_db_err_to_status(e.kind, Status { code: 404 })),
            PasswordOutcome::CheckFailed => ClassesAction::Answer(Status { code: 500 }),
            PasswordOutcome::Answered(false) => ClassesAction::Answer(Status { code: 401 }),
            PasswordOutcome::Answered(true) => ClassesAction::LookUpStudentClasses,
        },
        event matches ClassesEvent::StudentClasses(x) ==> r == match x {
            Ok(()) => ClassesAction::BuildData,
            Err(ClassError::NotAStudent(_)) => ClassesAction::LookUpTeacherClasses,
            Err(ClassError::AccountNotFound(_)) => ClassesAction::Answer(Status { code: 404 }),
            Err(ClassError::Sqlx(_)) => ClassesAction::Answer(Status { code: 500 }),
            Err(ClassError::NotATeacher(_)) => ClassesAction::Answer(Status { code: 500 }),
        },
        event matches ClassesEvent::TeacherClasses(x) ==> match x {
            Ok(()) => r == ClassesAction::BuildData,
            Err(ClassError::NotAStudent(id)) => r matches ClassesAction::Refuse(t) && t@ == neither_role_text(id),
            Err(ClassError::NotATeacher(_)) => r == ClassesAction::Answer(Status { code: 500 }),
            Err(ClassError::AccountNotFound(_)) => r == ClassesAction::Answer(Status { code: 500 }),
            Err(ClassError::Sqlx(_)) => r == ClassesAction::Answer(Status { code: 500 }),
        },
        event matches ClassesEvent::DataBuilt(x) ==> r == match x {
            Ok(()) => ClassesAction::Send,
            Err(_) => ClassesAction::Answer(Status { code: 500 }),
        },
{
    match event {
        ClassesEvent::Start => ClassesAction::CheckAccount,
        ClassesEvent::AccountChecked(o) => match o {
            PasswordOutcome::NoAccount(e) => ClassesAction::Answer(crate::db_err_to_status(&e, Status { code: 404 })),
            PasswordOutcome::CheckFailed => ClassesAction::Answer(Status { code: 500 }),
            PasswordOutcome::Answered(ok) => if ok {
                ClassesAction::LookUpStudentClasses
            } else {
                ClassesAction::Answer(Status { code: 401 })
            },
        },
        ClassesEvent::StudentClasses(x) => match x {
            Ok(()) => ClassesAction::BuildData,
            Err(ClassError::NotAStudent(_)) => ClassesAction::LookUpTeacherClasses,
            Err(ClassError::AccountNotFound(_)) => ClassesAction::Answer(Status { code: 404 }),
            Err(ClassError::Sqlx(_)) => ClassesAction::Answer(Status { code: 500 }),
            Err(ClassError::NotATeacher(_)) => ClassesAction::Answer(Status { code: 500 }),
        },
        ClassesEvent::TeacherClasses(x) => match x {
            Ok(()) => ClassesAction::BuildData,
            Err(ClassError::NotAStudent(id)) => ClassesAction::Refuse(account_message(id, " is neither a teacher nor a student")),
            Err(ClassError::NotATeacher(_)) => ClassesAction::Answer(Status { code: 500 }),
            Err(ClassError::AccountNotFound(_)) => ClassesAction::Answer(Status { code: 500 }),
            Err(ClassError::Sqlx(_)) => ClassesAction::Answer(Status { code: 500 }),
        },
        ClassesEvent::DataBuilt(x) => match x {
            Ok(()) => ClassesAction::Send,
            Err(_) => ClassesAction::Answer(Status { code: 500 }),
        },
    }
}

/// What the service learned while creating a class.
#[derive(Debug)]
pub enum CreateClassEvent {
    /// The request came in.
    Start,
    /// The teacher's password was checked.
    TeacherChecked(PasswordOutcome),
    /// The class was made (with its id), or not.
    Made(Result<i32, ClassError>),
}

/// What the service does next while creating a class.
#[derive(Debug)]
pub enum CreateClassAction {
    CheckTeacher,
    Make,
    /// Answer 201 Created with this address.
    Created(String),
    Answer(Status),
    /// Answer 400 Bad Request with this text.
    Refuse(String),
}

/// The next step of creating a class: the teacher's password must be right
/// (a failed read or check is 500, a wrong password 401); then the class is
/// made: its address `/api/class/<id>`, 500 for a database failure, and
/// otherwise 400 with the error's text.
pub fn create_class_step(event: CreateClassEvent) -> (r: CreateClassAction)
    ensures
        event is Start ==> r == CreateClassAction::CheckTeacher,
        event matches CreateClassEvent::TeacherChecked(o) ==> r == match password_gate(o, Status { code: 500 }) {
            Some(s) => CreateClassAction::Answer(s),
            None => CreateClassAction::Make,
        },
        event matches CreateClassEvent::Made(x) ==> match x {
            Ok(id) => r matches CreateClassAction::Created(t) && t@ == "/api/class/"@ + decimal(id as int),
            Err(ClassError::Sqlx(_)) => r == CreateClassAction::Answer(Status { code: 500 }),
            Err(e) => r matches CreateClassAction::Refuse(t) && t@ == class_error_text(e),
        },
{
    match event {
        CreateClassEvent::Start => CreateClassAction::CheckTeacher,
        CreateClassEvent::TeacherChecked(o) => match gate_password(&o, Status { code: 500 }) {
            Some(s) => CreateClassAction::Answer(s),
            None => CreateClassAction::Make,
        },
        CreateClassEvent::Made(x) => match x {
            Ok(id) => CreateClassAction::Created(located("/api/class/", id)),
            Err(ClassError::Sqlx(_)) => CreateClassAction::Answer(Status { code: 500 }),
            Err(e) => CreateClassAction::Refuse(e.to_string()),
        },
    }
}

/// What the service learned while adding students to a class.
#[derive(Debug)]
pub enum AddStudentsEvent {
    /// The request came in.
    Start,
    /// The class was read, or not.
    ClassFound(Result<(), DbError>),
    /// The teacher's password was checked.
    TeacherChecked(PasswordOutcome),
    /// The students were added, or not.
    Added(Result<(), ClassError>),
}

/// What the service does next while adding students to a class.
#[derive(Debug)]
pub enum AddStudentsAction {
    LookUpClass,
    CheckTeacher,
    Add,
    Answer(Status),
    /// Answer 400 Bad Request with this text.
    Refuse(String),
}

/// The next step of adding students to a class: a failed class lookup is
/// answered as `db_err_to_status` with 404 says; the teacher's password must
/// be right (a failed read or check is 500, a wrong password 401); then the
/// students are added: 200 OK, 500 for a database failure, and otherwise
/// 400 with the error's text.
pub fn add_students_step(event: AddStudentsEvent) -> (r: AddStudentsAction)
    ensures
        event is Start ==> r == AddStudentsAction::LookUpClass,
        event matches AddStudentsEvent::ClassFound(x) ==> r == match x {
            Ok(()) => AddStudentsAction::CheckTeacher,
            Err(e) => AddStudentsAction::Answer(spec_db_err_to_status(e.kind, Status { code: 404 })),
        },
        event matches AddStudentsEvent::TeacherChecked(o) ==> r == match password_gate(o, Status { code: 500 }) {
            Some(s) => AddStudentsAction::Answer(s),
            None => AddStudentsAction::Add,
        },
        event matches AddStudentsEvent::Added(x) ==> match x {
            Ok(()) => r == AddStudentsAction::Answer(Status { code: 200 }),
            Err(ClassError::Sqlx(_)) => r == AddStudentsAction::Answer(Status { code: 500 }),
            Err(e) => r matches AddStudentsAction::Refuse(t) && t@ == class_error_text(e),
        },
{
    match event {
        AddStudentsEvent::Start => AddStudentsAction::LookUpClass,
        AddStudentsEvent::ClassFound(x) => match x {
            Ok(()) => AddStudentsAction::CheckTeacher,
            Err(e) => AddStudentsAction::Answer(crate::db_err_to_status(&e, Status { code: 404 })),
        },
        AddStudentsEvent::TeacherChecked(o) => match gate_password(&o, Status { code: 500 }) {
            Some(s) => AddStudentsAction::Answer(s),
            None => AddStudentsAction::Add,
        },
        AddStudentsEvent::Added(x) => match x {
            Ok(()) => AddStudentsAction::Answer(Status { code: 200 }),
            Err(ClassError::Sqlx(_)) => AddStudentsAction::Answer(Status { code: 500 }),
            Err(e) => AddStudentsAction::Refuse(e.to_string()),
        },
    }
}

/// What the service learned while deleting a class or removing students
/// from it.
#[derive(Debug)]
pub enum DeleteClassEvent {
    /// The request came in.
    Start,
    /// The class was read, or not.
    ClassFound(Result<(), DbError>),
    /// The teacher's password was checked.
    TeacherChecked(PasswordOutcome),
    /// The students were removed or the class deleted, or not.
    Done(Result<(), DbError>),
}

/// What the service does next while deleting a class or removing students.
#[derive(Debug)]
pub enum DeleteClassAction {
    LookUpClass,
    CheckTeacher,
    RemoveStudents,
    DeleteClass,
    Answer(Status),
}

/// The next step of a class deletion request, which removes the listed
/// students when `removes_students` (the request lists students) and deletes
/// the whole class otherwise: a failed class lookup is answered as
/// `db_err_to_status` with 404 says; the teacher's password must be right
/// (a failed read or check is 500, a wrong password 401); then 200 OK, or
/// 500 when the removal fails.
pub fn delete_class_step(removes_students: bool, event: DeleteClassEvent) -> (r: DeleteClassAction)
    ensures
        event is Start ==> r == DeleteClassAction::LookUpClass,
        event matches DeleteClassEvent::ClassFound(x) ==> r == match x {
            Ok(()) => DeleteClassAction::CheckTeacher,
            Err(e) => DeleteClassAction::Answer(spec_db_err_to_status(e.kind, Status { code: 404 })),
        },
        event matches DeleteClassEvent::TeacherChecked(o) ==> r == match password_gate(o, Status { code: 500 }) {
            Some(s) => DeleteClassAction::Answer(s),
            None => if removes_students {
                DeleteClassAction::RemoveStudents
            } else {
                DeleteClassAction::DeleteClass
            },
        },
        event matches DeleteClassEvent::Done(x) ==> r == DeleteClassAction::Answer(Status { code: if x is Ok { 200 } else { 500 } }),
{
    match event {
        DeleteClassEvent::Start => DeleteClassAction::LookUpClass,
        DeleteClassEvent::ClassFound(x) => match x {
            Ok(()) => DeleteClassAction::CheckTeacher,
            Err(e) => DeleteClassAction::Answer(crate::db_err_to_status(&e, Status { code: 404 })),
        },
        DeleteClassEvent::TeacherChecked(o) => match gate_password(&o, Status { code: 500 }) {
            Some(s) => DeleteClassAction::Answer(s),
            None => if removes_students {
                DeleteClassAction::RemoveStudents
            } else {
                DeleteClassAction::DeleteClass
            },
        },
        DeleteClassEvent::Done(x) => DeleteClassAction::Answer(Status { code: if x.is_ok() { 200 } else { 500 } }),
    }
}

} // verus!
