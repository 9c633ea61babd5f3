//! The request: what a query sends, and how it is written as JSON.

use crate::error::{Failure, QueryError};
use crate::json::{
    describe, error_text, integer, json_of, members_of, new_members, object, put, render,
    rendered, text, Json,
};
use crate::text::{or_empty, text_or_empty, text_view};
use serde_json::Value;
use vstd::prelude::*;

verus! {

/// The arguments of a remote method. Only the school's number is required;
/// an empty text stands for an argument that was not given.
#[derive(Debug, PartialEq)]
pub struct ApiArgs {
    pub school_id: i64,
    pub school_code: String,
    pub school_name: String,
    pub func: String,
    pub store_id: String,
    pub var_type: String,
    pub value_name: String,
}

/// The arguments as a mathematical object.
pub struct Args {
    pub school_id: int,
    pub school_code: Seq<char>,
    pub school_name: Seq<char>,
    pub func: Seq<char>,
    pub store_id: Seq<char>,
    pub var_type: Seq<char>,
    pub value_name: Seq<char>,
}

impl View for ApiArgs {
    type V = Args;

    open spec fn view(&self) -> Args {
        Args {
            school_id: self.school_id as int,
            school_code: self.school_code@,
            school_name: self.school_name@,
            func: self.func@,
            store_id: self.store_id@,
            var_type: self.var_type@,
            value_name: self.value_name@,
        }
    }
}

/// A request: the remote method's name, the caller's credentials if any, and
/// the arguments.
#[derive(Debug, PartialEq)]
pub struct ApiRequest {
    pub method: String,
    pub token: Option<String>,
    pub username: Option<String>,
    pub args: ApiArgs,
}

/// A request as a mathematical object.
pub struct Request {
    pub method: Seq<char>,
    pub token: Option<Seq<char>>,
    pub username: Option<Seq<char>>,
    pub args: Args,
}

impl View for ApiRequest {
    type V = Request;

    open spec fn view(&self) -> Request {
        Request {
            method: self.method@,
            token: text_view(self.token),
            username: text_view(self.username),
            args: self.args@,
        }
    }
}

/// `members` with the string `value` under `key`, unless `value` is empty.
pub open spec fn with_text(members: Map<Seq<char>, Json>, key: Seq<char>, value: Seq<char>) -> Map<
    Seq<char>,
    Json,
> {
    if value.len() == 0 {
        members
    } else {
        members.insert(key, Json::Text(value))
    }
}

/// `members` with the string `value` under `key`, if a value is given.
pub open spec fn with_optional(
    members: Map<Seq<char>, Json>,
    key: Seq<char>,
    value: Option<Seq<char>>,
) -> Map<Seq<char>, Json> {
    match value {
        Some(s) => members.insert(key, Json::Text(s)),
        None => members,
    }
}

impl Args {
    /// The members of the JSON object that the arguments are written as:
    /// `schoolId` always, each of the others only where it is not empty.
    pub open spec fn members(self) -> Map<Seq<char>, Json> {
        let m = Map::<Seq<char>, Json>::empty().insert("schoolId"@, Json::Int(self.school_id));
        let m = with_text(m, "schoolCode"@, self.school_code);
        let m = with_text(m, "schoolName"@, self.school_name);
        let m = with_text(m, "func"@, self.func);
        let m = with_text(m, "storeId"@, self.store_id);
        let m = with_text(m, "type"@, self.var_type);
        with_text(m, "valueName"@, self.value_name)
    }
}

impl Request {
    /// The members of the JSON object that the request is written as:
    /// `method` and `args` always, `token` and `username` only where given.
    pub open spec fn members(self) -> Map<Seq<char>, Json> {
        let m = Map::<Seq<char>, Json>::empty().insert("method"@, Json::Text(self.method));
        let m = with_optional(m, "token"@, self.token);
        let m = with_optional(m, "username"@, self.username);
        m.insert("args"@, Json::Object(self.args.members()))
    }

    /// The request that a query makes of its inputs: arguments that are not
    /// given become the empty text.
    pub open spec fn of_inputs(
        method: Seq<char>,
        school_id: int,
        school_code: Option<Seq<char>>,
        school_name: Option<Seq<char>>,
        func: Option<Seq<char>>,
        store_id: Option<Seq<char>>,
        var_type: Option<Seq<char>>,
        value_name: Option<Seq<char>>,
        token: Option<Seq<char>>,
        username: Option<Seq<char>>,
    ) -> Request {
        Request {
            method,
            token,
            username,
            args: Args {
                school_id,
                school_code: text_or_empty(school_code),
                school_name: text_or_empty(school_name),
                func: text_or_empty(func),
                store_id: text_or_empty(store_id),
                var_type: text_or_empty(var_type),
                value_name: text_or_empty(value_name),
            },
        }
    }
}

/// Puts the string `value` under `key`, unless it is empty.
fn put_text(members: &mut serde_json::Map<String, Value>, key: &str, value: &String)
    ensures
        members_of(*final(members)) == with_text(
            members_of(*old(members)),
            key@,
            value@,
        ),
{
    if !value.as_str().is_empty() {
        put(members, key.to_owned(), text(value.clone()));
    }
}

/// Puts the string `value` under `key`, if there is one.
fn put_optional(members: &mut serde_json::Map<String, Value>, key: &str, value: &Option<String>)
    ensures
        members_of(*final(members)) == with_optional(
            members_of(*old(members)),
            key@,
            text_view(*value),
        ),
{
    match value {
        Some(s) => {
            put(members, key.to_owned(), text(s.clone()));
        },
        None => {},
    }
}

impl ApiArgs {
    /// Writes the arguments as a JSON object.
    pub fn to_json(&self) -> (v: Value)
        ensures
            json_of(v) == Json::Object(self@.members()),
    {
        let mut members = new_members();
        put(&mut members, "schoolId".to_owned(), integer(self.school_id));
        put_text(&mut members, "schoolCode", &self.school_code);
        put_text(&mut members, "schoolName", &self.school_name);
        put_text(&mut members, "func", &self.func);
        put_text(&mut members, "storeId", &self.store_id);
        put_text(&mut members, "type", &self.var_type);
        put_text(&mut members, "valueName", &self.value_name);
        object(members)
    }
}

impl ApiRequest {
    /// Writes the request as a JSON object.
    pub fn to_json(&self) -> (v: Value)
        ensures
            json_of(v) == Json::Object(self@.members()),
    {
        let mut members = new_members();
        put(&mut members, "method".to_owned(), text(self.method.clone()));
        put_optional(&mut members, "token", &self.token);
        put_optional(&mut members, "username", &self.username);
        put(&mut members, "args".to_owned(), self.args.to_json());
        object(members)
    }
}

/// What is made of the outcome of writing a request as text: the text goes
/// on as it is, a failure becomes a transport failure with the writer's
/// complaint.
pub open spec fn body_of(written: Result<Seq<char>, Seq<char>>) -> Result<Seq<char>, Failure> {
    match written {
        Ok(body) => Ok(body),
        Err(complaint) => Err(Failure::Transport { detail: complaint }),
    }
}

/// The view of what writing gave.
pub open spec fn written_view(written: Result<String, serde_json::Error>) -> Result<
    Seq<char>,
    Seq<char>,
> {
    match written {
        Ok(body) => Ok(body@),
        Err(e) => Err(error_text(e)),
    }
}

/// The view of a body that may have failed to come about.
pub open spec fn body_view(body: Result<String, QueryError>) -> Result<Seq<char>, Failure> {
    match body {
        Ok(text) => Ok(text@),
        Err(error) => Err(error@),
    }
}

/// Settles what is sent, given the outcome of writing the request as text.
pub fn settle_body(written: Result<String, serde_json::Error>) -> (r: Result<String, QueryError>)
    ensures
        body_view(r) == body_of(written_view(written)),
{
    match written {
        Ok(body) => Ok(body),
        Err(e) => Err(QueryError::Transport { detail: describe(&e) }),
    }
}

/// Writes the request as the JSON text that is sent: the compact text of
/// the request's JSON object where the writer gives one, and a transport
/// failure with the writer's complaint where it does not.
pub fn request_body(request: &ApiRequest) -> (r: Result<String, QueryError>)
    ensures
        body_view(r) == body_of(rendered(Json::Object(request@.members()))),
{
    let v = request.to_json();
    settle_body(render(&v))
}

/// Makes the request of a query's inputs.
pub fn build_request(
    method: String,
    school_id: i64,
    school_code: Option<String>,
    school_name: Option<String>,
    func: Option<String>,
    store_id: Option<String>,
    var_type: Option<String>,
    value_name: Option<String>,
    token: Option<String>,
    username: Option<String>,
) -> (r: ApiRequest)
    ensures
        r@ == Request::of_inputs(
            method@,
            school_id as int,
            text_view(school_code),
            text_view(school_name),
            text_view(func),
            text_view(store_id),
            text_view(var_type),
            text_view(value_name),
            text_view(token),
            text_view(username),
        ),
{
    ApiRequest {
        method,
        token,
        username,
        args: ApiArgs {
            school_id,
            school_code: or_empty(school_code),
            school_name: or_empty(school_name),
            func: or_empty(func),
            store_id: or_empty(store_id),
            var_type: or_empty(var_type),
            value_name: or_empty(value_name),
        },
    }
}

/// Where only the school's number is given, the arguments are written with
/// the single member `schoolId`: every other key is left out.
pub proof fn lemma_bare_arguments_hold_only_school_id(
    method: Seq<char>,
    school_id: int,
    token: Option<Seq<char>>,
    username: Option<Seq<char>>,
)
    ensures
        Request::of_inputs(
            method,
            school_id,
            None,
            None,
            None,
            None,
            None,
            None,
            token,
            username,
        ).args.members() =~= Map::<Seq<char>, Json>::empty().insert(
            "schoolId"@,
            Json::Int(school_id),
        ),
        Request::of_inputs(
            method,
            school_id,
            None,
            None,
            None,
            None,
            None,
            None,
            token,
            username,
        ).args.members().dom() =~= set!["schoolId"@],
{
}

} // verus!
