use crate::class::Class;
use crate::route::{Method, RouteInfo};
use vstd::prelude::*;

verus! {

/// The text that `class_info` answers with.
pub const CLASS_INFO: &'static str = r#"
GET /class/<id> - get class by id

POST /class - create a new class
teacher_password: String - required
class: {
	teacher_id: i32 - required
	name: String - required
	student_ids: Vec<i32> - optional
}

PUT /class/<id> - add students to a class
teacher_password: String - required
student_ids: Vec<i32> - required

DELETE /class/<id> - delete a class
teacher_password: String - required

DELETE /class/<id> - remove students from class
teacher_password: String - required
student_ids: Vec<i32> - required
"#;

/// Describes the class routes and their request bodies.
pub fn class_info() -> (r: &'static str)
    ensures
        r@ == CLASS_INFO@,
{
    CLASS_INFO
}

/// The class routes, in the order they are mounted.
pub open spec fn class_routes() -> Seq<RouteInfo> {
    seq![
        RouteInfo { method: Method::Get, path: "/class", name: "class_info" },
        RouteInfo { method: Method::Get, path: "/class/<id>", name: "get_class_by_id" },
        RouteInfo { method: Method::Post, path: "/class", name: "create_class" },
        RouteInfo { method: Method::Delete, path: "/class/<id>", name: "delete_class" },
        RouteInfo { method: Method::Put, path: "/class/<id>", name: "add_students" },
        RouteInfo { method: Method::Post, path: "/account/<id>/classes", name: "get_account_classes" },
    ]
}

/// The class routes.
pub fn all() -> (r: Vec<RouteInfo>)
    ensures
        r@ == class_routes(),
{
    let mut r: Vec<RouteInfo> = Vec::new();
    r.push(RouteInfo { method: Method::Get, path: "/class", name: "class_info" });
    r.push(RouteInfo { method: Method::Get, path: "/class/<id>", name: "get_class_by_id" });
    r.push(RouteInfo { method: Method::Post, path: "/class", name: "create_class" });
    r.push(RouteInfo { method: Method::Delete, path: "/class/<id>", name: "delete_class" });
    r.push(RouteInfo { method: Method::Put, path: "/class/<id>", name: "add_students" });
    r.push(RouteInfo { method: Method::Post, path: "/account/<id>/classes", name: "get_account_classes" });
    assert(r@ =~= class_routes());
    r
}

/// What the service answers about a class.
#[derive(Debug)]
pub struct GetClassData {
    pub id: i32,
    pub name: String,
    pub teacher_id: i32,
    pub teacher_name: String,
    pub student_ids: Vec<i32>,
}

/// The teacher name shown for a class: the name, or `None`.
pub open spec fn teacher_name_text(name: Option<String>) -> Seq<char> {
    match name {
        Some(n) => n@,
        None => "None"@,
    }
}

impl GetClassData {
    /// The data shown for `class`, with its teacher's name and its students
    /// as looked up.
    pub fn from_class(class: Class, teacher_name: Option<String>, student_ids: Vec<i32>) -> (r: Self)
        ensures
            r.id == class.id,
            r.name == class.name,
            r.teacher_id == class.teacher_id,
            r.teacher_name@ == teacher_name_text(teacher_name),
            r.student_ids@ == student_ids@,
    {
        GetClassData {
            student_ids,
            id: class.id,
            name: class.name,
            teacher_id: class.teacher_id,
            teacher_name: match teacher_name {
                Some(n) => n,
                None => String::from_str("None"),
            },
        }
    }
}

} // verus!
