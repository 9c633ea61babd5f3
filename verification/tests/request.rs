use catering_query::{
    build_request, chain_store_request, request_body, settle_body, ApiArgs, ApiRequest,
    QueryError, ENDPOINT, QUERY_CHAIN_STORE,
};
use serde_json::Value;

fn value(text: &str) -> Value {
    serde_json::from_str(text).unwrap()
}

fn text(s: &str) -> Option<String> {
    Some(s.to_string())
}

fn bare(method: &str, school_id: i64) -> ApiRequest {
    build_request(method.to_string(), school_id, None, None, None, None, None, None, None, None)
}

#[test]
fn endpoint_is_the_fixed_address() {
    assert_eq!(ENDPOINT, "https://fatraceschool.k12ea.gov.tw/cateringservice/rest/API/");
}

#[test]
fn absent_arguments_become_empty_texts() {
    let request = bare("QueryChainStore", 64741860);
    assert_eq!(
        request,
        ApiRequest {
            method: "QueryChainStore".to_string(),
            token: None,
            username: None,
            args: ApiArgs {
                school_id: 64741860,
                school_code: String::new(),
                school_name: String::new(),
                func: String::new(),
                store_id: String::new(),
                var_type: String::new(),
                value_name: String::new(),
            },
        }
    );
}

#[test]
fn given_arguments_are_forwarded_verbatim() {
    let request = build_request(
        "QueryMenu".to_string(),
        -5,
        text("A1"),
        text("first school"),
        text("list"),
        text("77"),
        text("lunch"),
        text("rice"),
        text("secret"),
        text("cook"),
    );
    assert_eq!(request.method, "QueryMenu");
    assert_eq!(request.token, text("secret"));
    assert_eq!(request.username, text("cook"));
    assert_eq!(request.args.school_id, -5);
    assert_eq!(request.args.school_code, "A1");
    assert_eq!(request.args.school_name, "first school");
    assert_eq!(request.args.func, "list");
    assert_eq!(request.args.store_id, "77");
    assert_eq!(request.args.var_type, "lunch");
    assert_eq!(request.args.value_name, "rice");
}

#[test]
fn bare_arguments_are_written_with_school_id_alone() {
    let request = bare("QueryChainStore", 64741860);
    let written = request.args.to_json();
    assert_eq!(written, value("{\"schoolId\":64741860}"));
    let members = written.as_object().unwrap();
    assert_eq!(members.len(), 1);
    assert!(members.contains_key("schoolId"));
}

#[test]
fn empty_arguments_are_left_out_like_absent_ones() {
    let request = build_request(
        "QueryChainStore".to_string(),
        1,
        text(""),
        text(""),
        text(""),
        text(""),
        text(""),
        text(""),
        None,
        None,
    );
    assert_eq!(request.args.to_json(), value("{\"schoolId\":1}"));
}

#[test]
fn every_given_argument_is_written_under_its_key() {
    let args = ApiArgs {
        school_id: 12,
        school_code: "A1".to_string(),
        school_name: "first school".to_string(),
        func: "list".to_string(),
        store_id: "77".to_string(),
        var_type: "lunch".to_string(),
        value_name: "rice".to_string(),
    };
    assert_eq!(
        args.to_json(),
        value(
            "{\"schoolId\":12,\"schoolCode\":\"A1\",\"schoolName\":\"first school\",\
             \"func\":\"list\",\"storeId\":\"77\",\"type\":\"lunch\",\"valueName\":\"rice\"}"
        )
    );
}

#[test]
fn a_single_given_argument_is_written_alone_beside_school_id() {
    let request = build_request(
        "QueryChainStore".to_string(),
        3,
        None,
        None,
        None,
        None,
        text("dinner"),
        None,
        None,
        None,
    );
    assert_eq!(request.args.to_json(), value("{\"schoolId\":3,\"type\":\"dinner\"}"));
}

#[test]
fn absent_credentials_are_left_out_of_the_request() {
    let request = bare("QueryChainStore", 64741860);
    assert_eq!(
        request.to_json(),
        value("{\"method\":\"QueryChainStore\",\"args\":{\"schoolId\":64741860}}")
    );
}

#[test]
fn given_credentials_are_written_even_when_empty() {
    let request = build_request(
        "QueryMenu".to_string(),
        9,
        None,
        None,
        None,
        None,
        None,
        None,
        text(""),
        text("cook"),
    );
    assert_eq!(
        request.to_json(),
        value("{\"method\":\"QueryMenu\",\"token\":\"\",\"username\":\"cook\",\"args\":{\"schoolId\":9}}")
    );
}

#[test]
fn request_body_is_the_compact_text_of_the_request() {
    let request = bare("QueryChainStore", 64741860);
    let body = request_body(&request).unwrap();
    assert_eq!(body, "{\"args\":{\"schoolId\":64741860},\"method\":\"QueryChainStore\"}");
    assert_eq!(value(&body), request.to_json());
}

#[test]
fn request_body_carries_negative_numbers_and_escapes_texts() {
    let request = build_request(
        "Query\"Menu".to_string(),
        -42,
        None,
        text("午餐"),
        None,
        None,
        None,
        None,
        text("t"),
        None,
    );
    let body = request_body(&request).unwrap();
    assert_eq!(
        body,
        "{\"args\":{\"schoolId\":-42,\"schoolName\":\"午餐\"},\"method\":\"Query\\\"Menu\",\"token\":\"t\"}"
    );
}

#[test]
fn written_text_goes_on_unchanged() {
    let body = settle_body(Ok("{}".to_string())).unwrap();
    assert_eq!(body, "{}");
}

#[test]
fn a_writer_failure_becomes_a_transport_failure() {
    let failure = serde_json::from_str::<Value>("").unwrap_err();
    let complaint = failure.to_string();
    let error = settle_body(Err(failure)).unwrap_err();
    match &error {
        QueryError::Transport { detail } => assert_eq!(detail, &complaint),
        other => panic!("unexpected failure: {:?}", other),
    }
    assert_eq!(error.message(), format!("Request failed: {}", complaint));
}

#[test]
fn chain_store_request_names_the_fixed_method() {
    assert_eq!(QUERY_CHAIN_STORE, "QueryChainStore");
    let request =
        chain_store_request(64741860, None, None, None, None, None, None, text("t"), None);
    assert_eq!(
        request,
        build_request(
            "QueryChainStore".to_string(),
            64741860,
            None,
            None,
            None,
            None,
            None,
            None,
            text("t"),
            None
        )
    );
    assert_eq!(
        request_body(&request).unwrap(),
        "{\"args\":{\"schoolId\":64741860},\"method\":\"QueryChainStore\",\"token\":\"t\"}"
    );
}
