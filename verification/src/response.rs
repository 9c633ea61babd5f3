//! Reading the body of an answer: the envelope the service wraps every
//! result in, and the shape in which a result is handed on.

use crate::error::{Failure, QueryError};
use crate::fault::{Field, ShapeFault};
use crate::json::{
    as_text, describe, error_text, is_object, json_of, member, member_of, parse,
    parse_outcome, Json,
};
use crate::text::{ends_with, text_view};
use serde_json::Value;
use vstd::prelude::*;

verus! {

/// The envelope of an answer as the service sends it.
#[derive(Debug, PartialEq)]
pub struct ApiResponse {
    pub result_content: Value,
    pub resource: String,
    pub method: String,
    pub result: String,
    pub error_msg: String,
}

/// An envelope as a mathematical object.
pub struct Envelope {
    pub result_content: Json,
    pub resource: Seq<char>,
    pub method: Seq<char>,
    pub result: Seq<char>,
    pub error_msg: Seq<char>,
}

impl View for ApiResponse {
    type V = Envelope;

    open spec fn view(&self) -> Envelope {
        Envelope {
            result_content: json_of(self.result_content),
            resource: self.resource@,
            method: self.method@,
            result: self.result@,
            error_msg: self.error_msg@,
        }
    }
}

/// The result of a query as it is handed to the caller.
#[derive(Debug, PartialEq)]
pub struct CustomResponse {
    pub result: i32,
    pub message: String,
    pub data: Option<Value>,
}

/// A handed-on result as a mathematical object.
pub struct Outcome {
    pub result: int,
    pub message: Seq<char>,
    pub data: Option<Json>,
}

impl View for CustomResponse {
    type V = Outcome;

    open spec fn view(&self) -> Outcome {
        Outcome {
            result: self.result as int,
            message: self.message@,
            data: match self.data {
                Some(v) => Some(json_of(v)),
                None => None,
            },
        }
    }
}

/// The text of the member `field` of `j`, which has to be there and to be a
/// string.
pub open spec fn text_field(j: Json, field: Field) -> Result<Seq<char>, ShapeFault> {
    match member_of(j, field.key()) {
        None => Err(ShapeFault::Missing(field)),
        Some(Json::Text(s)) => Ok(s),
        Some(_) => Err(ShapeFault::NotText(field)),
    }
}

/// The envelope that `j` denotes. `j` has to be an object with a member
/// `resultContent` of any kind and string members `resource`, `method`,
/// `result` and `errorMsg`; further members are ignored. Of several faults
/// the first in that order is reported.
pub open spec fn envelope_of(j: Json) -> Result<Envelope, ShapeFault> {
    if !(j is Object) {
        Err(ShapeFault::NotAnObject)
    } else if member_of(j, Field::ResultContent.key()) is None {
        Err(ShapeFault::Missing(Field::ResultContent))
    } else if text_field(j, Field::Resource) is Err {
        Err(text_field(j, Field::Resource)->Err_0)
    } else if text_field(j, Field::Method) is Err {
        Err(text_field(j, Field::Method)->Err_0)
    } else if text_field(j, Field::ResultCode) is Err {
        Err(text_field(j, Field::ResultCode)->Err_0)
    } else if text_field(j, Field::ErrorMsg) is Err {
        Err(text_field(j, Field::ErrorMsg)->Err_0)
    } else {
        Ok(
            Envelope {
                result_content: member_of(j, Field::ResultContent.key())->Some_0,
                resource: text_field(j, Field::Resource)->Ok_0,
                method: text_field(j, Field::Method)->Ok_0,
                result: text_field(j, Field::ResultCode)->Ok_0,
                error_msg: text_field(j, Field::ErrorMsg)->Ok_0,
            },
        )
    }
}

/// The message of a result: its member `msg` where that is a string,
/// `Success` otherwise.
pub open spec fn message_of(content: Json) -> Seq<char> {
    match member_of(content, "msg"@) {
        Some(Json::Text(s)) => s,
        _ => "Success"@,
    }
}

/// Whether `key` asks for a single member: it is given and not empty.
pub open spec fn selects(key: Option<Seq<char>>) -> bool {
    key matches Some(k) && k.len() > 0
}

/// The data of a result: the member under `key` where a key selects one
/// (nothing if there is no such member), the whole result otherwise.
pub open spec fn data_of(content: Json, key: Option<Seq<char>>) -> Option<Json> {
    if selects(key) {
        member_of(content, key->Some_0)
    } else {
        Some(content)
    }
}

/// What is handed on for a result.
pub open spec fn normalized(content: Json, key: Option<Seq<char>>) -> Outcome {
    Outcome { result: 1, message: message_of(content), data: data_of(content, key) }
}

/// What is made of a body that parsed to `parsed`: a parse failure with the
/// parser's complaint, a parse failure with the shape fault, or the result
/// handed on. Either failure carries the whole body.
pub open spec fn interpreted(
    parsed: Result<Json, Seq<char>>,
    raw: Seq<char>,
    key: Option<Seq<char>>,
) -> Result<Outcome, Failure> {
    match parsed {
        Err(complaint) => Err(Failure::Parse { diagnostic: complaint, raw }),
        Ok(j) => match envelope_of(j) {
            Err(fault) => Err(Failure::Parse { diagnostic: fault.text(), raw }),
            Ok(envelope) => Ok(normalized(envelope.result_content, key)),
        },
    }
}

/// The view of what parsing gave.
pub open spec fn parsed_view(parsed: Result<Value, serde_json::Error>) -> Result<
    Json,
    Seq<char>,
> {
    match parsed {
        Ok(v) => Ok(json_of(v)),
        Err(e) => Err(error_text(e)),
    }
}

/// The view of what interpreting gave.
pub open spec fn answer_view(answer: Result<CustomResponse, QueryError>) -> Result<
    Outcome,
    Failure,
> {
    match answer {
        Ok(response) => Ok(response@),
        Err(error) => Err(error@),
    }
}

/// Reads the message of a result content.
pub(crate) fn read_message(content: &Value) -> (r: String)
    ensures
        r@ == message_of(json_of(*content)),
{
    match member(content, "msg") {
        Some(m) => match as_text(m) {
            Some(s) => s.to_owned(),
            None => "Success".to_owned(),
        },
        None => "Success".to_owned(),
    }
}

/// Reads the text of a member that has to be there and to be a string.
pub(crate) fn read_text(v: &Value, field: Field) -> (r: Result<String, ShapeFault>)
    ensures
        match r {
            Ok(s) => text_field(json_of(*v), field) == Ok::<Seq<char>, ShapeFault>(s@),
            Err(fault) => text_field(json_of(*v), field) == Err::<Seq<char>, ShapeFault>(fault),
        },
{
    match member(v, field.name()) {
        None => Err(ShapeFault::Missing(field)),
        Some(m) => match as_text(m) {
            Some(s) => Ok(s.to_owned()),
            None => Err(ShapeFault::NotText(field)),
        },
    }
}

/// Reads the envelope out of a parsed body.
pub fn decode_envelope(v: &Value) -> (r: Result<ApiResponse, ShapeFault>)
    ensures
        match r {
            Ok(envelope) => envelope_of(json_of(*v)) == Ok::<Envelope, ShapeFault>(envelope@),
            Err(fault) => envelope_of(json_of(*v)) == Err::<Envelope, ShapeFault>(fault),
        },
{
    if !is_object(v) {
        return Err(ShapeFault::NotAnObject);
    }
    let content = match member(v, Field::ResultContent.name()) {
        Some(m) => m.clone(),
        None => {
            return Err(ShapeFault::Missing(Field::ResultContent));
        },
    };
    let resource = match read_text(v, Field::Resource) {
        Ok(s) => s,
        Err(fault) => {
            return Err(fault);
        },
    };
    let method = match read_text(v, Field::Method) {
        Ok(s) => s,
        Err(fault) => {
            return Err(fault);
        },
    };
    let result = match read_text(v, Field::ResultCode) {
        Ok(s) => s,
        Err(fault) => {
            return Err(fault);
        },
    };
    let error_msg = match read_text(v, Field::ErrorMsg) {
        Ok(s) => s,
        Err(fault) => {
            return Err(fault);
        },
    };
    Ok(ApiResponse { result_content: content, resource, method, result, error_msg })
}

/// Reduces an envelope to what is handed on: the constant result 1, the
/// message of the result content, and the data that `key` selects.
pub fn normalize(envelope: ApiResponse, key: Option<String>) -> (r: CustomResponse)
    ensures
        r@ == normalized(envelope@.result_content, text_view(key)),
{
    let content = envelope.result_content;
    let message = read_message(&content);
    let data = match key {
        Some(k) => if k.as_str().is_empty() {
            Some(content)
        } else {
            match member(&content, k.as_str()) {
                Some(m) => Some(m.clone()),
                None => None,
            }
        },
        None => Some(content),
    };
    CustomResponse { result: 1, message, data }
}

/// Interprets a body of which the parser's outcome is at hand. `raw` is the
/// body as it arrived; it goes into the failure if there is one.
pub fn interpret_parsed(
    parsed: Result<Value, serde_json::Error>,
    raw: &str,
    key: Option<String>,
) -> (r: Result<CustomResponse, QueryError>)
    ensures
        answer_view(r) == interpreted(parsed_view(parsed), raw@, text_view(key)),
{
    match parsed {
        Err(e) => Err(QueryError::Parse { diagnostic: describe(&e), raw: raw.to_owned() }),
        Ok(v) => match decode_envelope(&v) {
            Err(fault) => Err(
                QueryError::Parse { diagnostic: fault.describe(), raw: raw.to_owned() },
            ),
            Ok(envelope) => Ok(normalize(envelope, key)),
        },
    }
}

/// Parses and interprets the body of an answer that reported success.
pub fn interpret_body(body: &str, key: Option<String>) -> (r: Result<CustomResponse, QueryError>)
    ensures
        answer_view(r) == interpreted(parse_outcome(body@), body@, text_view(key)),
{
    interpret_parsed(parse(body), body, key)
}

/// Where no key is given, the data handed on is the whole result content of
/// the answer.
pub proof fn lemma_absent_key_hands_on_whole_content(body: Json, raw: Seq<char>)
    ensures
        forall|content: Json| normalized(content, None).data == Some(content),
        envelope_of(body) matches Ok(envelope) ==> (interpreted(Ok(body), raw, None) matches Ok(
            outcome,
        ) && outcome.data == Some(envelope.result_content)),
{
}

/// Where a key selects a member that the result content does not have, the
/// answer is still handed on, and no data goes with it: the data is absent,
/// not the JSON value null.
pub proof fn lemma_missing_member_hands_on_no_data(body: Json, raw: Seq<char>, key: Seq<char>)
    requires
        key.len() > 0,
    ensures
        forall|content: Json|
            member_of(content, key) is None ==> normalized(content, Some(key)).data is None,
        envelope_of(body) matches Ok(envelope) ==> (member_of(envelope.result_content, key)
            is None ==> (interpreted(Ok(body), raw, Some(key)) matches Ok(outcome)
            && outcome.data is None)),
{
}

/// A body that the parser refuses is never handed on, and whatever body
/// fails, for the parser's reasons or for its shape, fails as a parse
/// failure that carries the whole body: the failure's message ends with it.
pub proof fn lemma_parse_failure_reports_whole_body(
    parsed: Result<Json, Seq<char>>,
    raw: Seq<char>,
    key: Option<Seq<char>>,
)
    ensures
        parsed is Err ==> interpreted(parsed, raw, key) is Err,
        interpreted(parsed, raw, key) matches Err(failure) ==> (failure matches Failure::Parse {
            raw: carried,
            ..
        } && carried == raw && ends_with(failure.message(), raw)),
{
    if let Err(failure) = interpreted(parsed, raw, key) {
        let message = failure.message();
        assert(message.subrange(message.len() - raw.len(), message.len() as int) =~= raw);
    }
}

} // verus!
