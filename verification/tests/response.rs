use catering_query::{
    decode_envelope, interpret_body, interpret_parsed, normalize, ApiResponse, CustomResponse,
    Field, QueryError, ShapeFault,
};
use serde_json::Value;

const ANSWER: &str = "{\"resultContent\":{\"msg\":\"ok\",\"storeList\":[]},\"resource\":\"x\",\"method\":\"QueryChainStore\",\"result\":\"1\",\"errorMsg\":\"\"}";

fn value(text: &str) -> Value {
    serde_json::from_str(text).unwrap()
}

fn text(s: &str) -> Option<String> {
    Some(s.to_string())
}

fn envelope_with(content: &str) -> ApiResponse {
    ApiResponse {
        result_content: value(content),
        resource: "x".to_string(),
        method: "QueryMenu".to_string(),
        result: "1".to_string(),
        error_msg: String::new(),
    }
}

fn parse_failure(error: &QueryError) -> (String, String) {
    match error {
        QueryError::Parse { diagnostic, raw } => (diagnostic.clone(), raw.clone()),
        other => panic!("unexpected failure: {:?}", other),
    }
}

#[test]
fn absent_key_hands_on_whole_content() {
    let response = interpret_body(ANSWER, None).unwrap();
    assert_eq!(
        response,
        CustomResponse {
            result: 1,
            message: "ok".to_string(),
            data: Some(value("{\"msg\":\"ok\",\"storeList\":[]}")),
        }
    );
}

#[test]
fn key_selects_one_member() {
    let response = interpret_body(ANSWER, text("storeList")).unwrap();
    assert_eq!(
        response,
        CustomResponse { result: 1, message: "ok".to_string(), data: Some(value("[]")) }
    );
}

#[test]
fn missing_member_hands_on_no_data() {
    let response = interpret_body(ANSWER, text("menu")).unwrap();
    assert_eq!(response, CustomResponse { result: 1, message: "ok".to_string(), data: None });
}

#[test]
fn a_null_member_is_data_and_not_absence() {
    let response = normalize(envelope_with("{\"menu\":null}"), text("menu"));
    assert_eq!(response.data, Some(Value::Null));
}

#[test]
fn empty_key_counts_as_no_key() {
    let response = normalize(envelope_with("{\"msg\":\"ok\",\"n\":[1,2.5]}"), text(""));
    assert_eq!(response.data, Some(value("{\"msg\":\"ok\",\"n\":[1,2.5]}")));
    let keyed = normalize(envelope_with("{\"\":7,\"msg\":\"ok\"}"), text(""));
    assert_eq!(keyed.data, Some(value("{\"\":7,\"msg\":\"ok\"}")));
}

#[test]
fn a_key_selects_nothing_from_content_that_is_no_object() {
    let response = normalize(envelope_with("[1,2,3]"), text("0"));
    assert_eq!(
        response,
        CustomResponse { result: 1, message: "Success".to_string(), data: None }
    );
    let whole = normalize(envelope_with("[1,2,3]"), None);
    assert_eq!(whole.data, Some(value("[1,2,3]")));
}

#[test]
fn message_defaults_to_success() {
    assert_eq!(normalize(envelope_with("{}"), None).message, "Success");
    assert_eq!(normalize(envelope_with("{\"msg\":5}"), None).message, "Success");
    assert_eq!(normalize(envelope_with("{\"msg\":null}"), None).message, "Success");
    assert_eq!(normalize(envelope_with("null"), None).message, "Success");
    assert_eq!(normalize(envelope_with("{\"msg\":\"\"}"), None).message, "");
    assert_eq!(normalize(envelope_with("{\"msg\":\"找不到\"}"), None).message, "找不到");
}

#[test]
fn result_is_one_whatever_the_envelope_reports() {
    let body = "{\"resultContent\":{},\"resource\":\"x\",\"method\":\"m\",\"result\":\"0\",\"errorMsg\":\"broken\"}";
    let response = interpret_body(body, None).unwrap();
    assert_eq!(
        response,
        CustomResponse { result: 1, message: "Success".to_string(), data: Some(value("{}")) }
    );
}

#[test]
fn envelope_is_read_member_by_member() {
    let envelope = decode_envelope(&value(ANSWER)).unwrap();
    assert_eq!(
        envelope,
        ApiResponse {
            result_content: value("{\"msg\":\"ok\",\"storeList\":[]}"),
            resource: "x".to_string(),
            method: "QueryChainStore".to_string(),
            result: "1".to_string(),
            error_msg: String::new(),
        }
    );
}

#[test]
fn envelope_ignores_further_members() {
    let body = "{\"extra\":1,\"resultContent\":null,\"resource\":\"r\",\"method\":\"m\",\"result\":\"1\",\"errorMsg\":\"e\"}";
    let envelope = decode_envelope(&value(body)).unwrap();
    assert_eq!(envelope.result_content, Value::Null);
    assert_eq!(envelope.error_msg, "e");
}

#[test]
fn envelope_that_is_no_object_is_refused() {
    assert_eq!(decode_envelope(&value("[]")), Err(ShapeFault::NotAnObject));
    assert_eq!(decode_envelope(&value("\"resultContent\"")), Err(ShapeFault::NotAnObject));
    assert_eq!(decode_envelope(&value("null")), Err(ShapeFault::NotAnObject));
}

#[test]
fn envelope_faults_are_reported_in_order() {
    assert_eq!(decode_envelope(&value("{}")), Err(ShapeFault::Missing(Field::ResultContent)));
    assert_eq!(
        decode_envelope(&value("{\"resultContent\":1,\"method\":7}")),
        Err(ShapeFault::Missing(Field::Resource))
    );
    assert_eq!(
        decode_envelope(&value("{\"resultContent\":1,\"resource\":2,\"method\":7}")),
        Err(ShapeFault::NotText(Field::Resource))
    );
    assert_eq!(
        decode_envelope(&value("{\"resultContent\":1,\"resource\":\"r\"}")),
        Err(ShapeFault::Missing(Field::Method))
    );
    assert_eq!(
        decode_envelope(&value("{\"resultContent\":1,\"resource\":\"r\",\"method\":\"m\",\"result\":1}")),
        Err(ShapeFault::NotText(Field::ResultCode))
    );
    assert_eq!(
        decode_envelope(&value(
            "{\"resultContent\":1,\"resource\":\"r\",\"method\":\"m\",\"result\":\"1\"}"
        )),
        Err(ShapeFault::Missing(Field::ErrorMsg))
    );
    assert_eq!(
        decode_envelope(&value(
            "{\"resultContent\":1,\"resource\":\"r\",\"method\":\"m\",\"result\":\"1\",\"errorMsg\":null}"
        )),
        Err(ShapeFault::NotText(Field::ErrorMsg))
    );
}

#[test]
fn shape_faults_are_put_in_words() {
    assert_eq!(ShapeFault::NotAnObject.describe(), "expected a JSON object");
    assert_eq!(ShapeFault::Missing(Field::ErrorMsg).describe(), "missing field `errorMsg`");
    assert_eq!(
        ShapeFault::NotText(Field::ResultCode).describe(),
        "field `result` is not a string"
    );
    assert_eq!(
        ShapeFault::NotArray(Field::StoreList).describe(),
        "field `storeList` is not an array"
    );
}

#[test]
fn fields_are_named_by_their_keys() {
    let keys = [
        (Field::ResultContent, "resultContent"),
        (Field::Resource, "resource"),
        (Field::Method, "method"),
        (Field::ResultCode, "result"),
        (Field::ErrorMsg, "errorMsg"),
        (Field::StoreList, "storeList"),
        (Field::StoreId, "storeId"),
        (Field::StoreName, "storeName"),
        (Field::SchoolId, "schoolId"),
        (Field::SchoolName, "schoolName"),
        (Field::StoreTypeCode, "storeTypeCode"),
        (Field::StoreTypeName, "storeTypeName"),
        (Field::ParentCode, "parentCode"),
        (Field::ParentName, "parentName"),
        (Field::StoreCode, "storeCode"),
        (Field::StreetId, "streetId"),
        (Field::Enable, "enable"),
        (Field::Logo, "logo"),
    ];
    for (field, key) in keys {
        assert_eq!(field.name(), key);
    }
}

#[test]
fn truncated_body_is_a_parse_failure_with_the_body() {
    let body = "{\"resultContent\":{\"msg\":\"ok\"";
    let error = interpret_body(body, None).unwrap_err();
    let (diagnostic, raw) = parse_failure(&error);
    assert_eq!(raw, body);
    assert_eq!(diagnostic, "EOF while parsing an object at line 1 column 28");
    assert!(error.message().contains(body));
    assert_eq!(
        error.message(),
        "Failed to parse response: EOF while parsing an object at line 1 column 28 | Response: {\"resultContent\":{\"msg\":\"ok\""
    );
}

#[test]
fn empty_body_is_a_parse_failure() {
    let error = interpret_body("", text("menu")).unwrap_err();
    let (diagnostic, raw) = parse_failure(&error);
    assert_eq!(raw, "");
    assert_eq!(diagnostic, "EOF while parsing a value at line 1 column 0");
    assert_eq!(
        error.message(),
        "Failed to parse response: EOF while parsing a value at line 1 column 0 | Response: "
    );
}

#[test]
fn body_of_the_wrong_shape_is_a_parse_failure_with_the_body() {
    let body = "{\"resultContent\":{},\"resource\":\"x\",\"method\":\"m\",\"result\":1,\"errorMsg\":\"\"}";
    let error = interpret_body(body, None).unwrap_err();
    let (diagnostic, raw) = parse_failure(&error);
    assert_eq!(raw, body);
    assert_eq!(diagnostic, "field `result` is not a string");
    assert_eq!(
        error.message(),
        format!("Failed to parse response: field `result` is not a string | Response: {}", body)
    );
    let error = interpret_body("[1]", None).unwrap_err();
    assert_eq!(parse_failure(&error), ("expected a JSON object".to_string(), "[1]".to_string()));
}

#[test]
fn parsed_outcome_is_interpreted_like_the_body() {
    for key in [None, text("storeList"), text("menu"), text("")] {
        let direct = interpret_body(ANSWER, key.clone()).unwrap();
        let staged = interpret_parsed(serde_json::from_str(ANSWER), ANSWER, key).unwrap();
        assert_eq!(direct, staged);
    }
    let broken = "{\"resultContent\"";
    let staged = interpret_parsed(serde_json::from_str(broken), broken, None).unwrap_err();
    assert_eq!(
        parse_failure(&staged),
        ("EOF while parsing an object at line 1 column 16".to_string(), broken.to_string())
    );
}

#[test]
fn parsed_outcome_carries_the_body_it_is_given() {
    let error = interpret_parsed(serde_json::from_str("nul"), "something else", None).unwrap_err();
    assert_eq!(
        parse_failure(&error),
        ("EOF while parsing a value at line 1 column 3".to_string(), "something else".to_string())
    );
}
