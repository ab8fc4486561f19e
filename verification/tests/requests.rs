use keyvalue_client::{
    BatchOperation, Body, Client, Error, Field, FieldValue, HistoryOptions, Method,
    PatchOperations, Request, DEFAULT_BASE_URL, DEFAULT_TIMEOUT_SECS, MAX_BATCH_OPERATIONS,
    TOKEN_HEADER,
};
use serde_json::Value;
use std::collections::HashMap;

const TOKEN: &str = "amber-birch-cedar-delta-ember";

fn document() -> Value {
    serde_json::from_str("{\"temperature\": 23, \"unit\": \"celsius\"}").unwrap()
}

fn store_operation(token: &str) -> BatchOperation {
    BatchOperation {
        action: "store".to_string(),
        token: token.to_string(),
        data: Some(document()),
        ttl: None,
        patch: None,
        version: None,
    }
}

fn operations(count: usize) -> Vec<BatchOperation> {
    let mut list = Vec::new();
    for i in 0..count {
        list.push(store_operation(&format!("token-{}", i)));
    }
    list
}

fn fields_of<'a>(body: Body<'a>) -> Vec<Field<'a>> {
    match body {
        Body::Object(fields) => fields,
        Body::Empty => panic!("expected a body"),
    }
}

fn names(fields: &[Field<'_>]) -> Vec<&'static str> {
    fields.iter().map(|field| field.name).collect()
}

fn expect_request<'a>(result: Result<Request<'a>, Error>) -> Request<'a> {
    match result {
        Ok(request) => request,
        Err(error) => panic!("expected a request, got {:?}", error),
    }
}

#[test]
fn constants_have_the_documented_values() {
    assert_eq!(DEFAULT_BASE_URL, "https://key-value.co");
    assert_eq!(DEFAULT_TIMEOUT_SECS, 30);
    assert_eq!(MAX_BATCH_OPERATIONS, 100);
    assert_eq!(TOKEN_HEADER, "X-KV-Token");
}

#[test]
fn new_binds_token_and_default_origin() {
    let client = Client::new(TOKEN);
    assert_eq!(client.base_url(), "https://key-value.co");
    assert_eq!(client.token(), Some(TOKEN));
}

#[test]
fn new_without_token_has_no_token() {
    let client = Client::new_without_token();
    assert_eq!(client.base_url(), "https://key-value.co");
    assert_eq!(client.token(), None);
}

#[test]
fn with_base_url_replaces_origin_and_keeps_token() {
    let client = Client::new(TOKEN).with_base_url("http://localhost:8080");
    assert_eq!(client.base_url(), "http://localhost:8080");
    assert_eq!(client.token(), Some(TOKEN));
}

#[test]
fn set_token_replaces_token_and_keeps_origin() {
    let mut client = Client::new_without_token().with_base_url("http://localhost:1");
    client.set_token("one");
    assert_eq!(client.token(), Some("one"));
    client.set_token("two");
    assert_eq!(client.token(), Some("two"));
    assert_eq!(client.base_url(), "http://localhost:1");
}

#[test]
fn method_names() {
    assert_eq!(Method::Get.as_str(), "GET");
    assert_eq!(Method::Post.as_str(), "POST");
    assert_eq!(Method::Delete.as_str(), "DELETE");
    assert_eq!(Method::Patch.as_str(), "PATCH");
}

#[test]
fn generate_needs_no_token() {
    let client = Client::new_without_token();
    let request = expect_request(client.generate(None));
    assert_eq!(request.method, Method::Post);
    assert_eq!(request.url, "https://key-value.co/api/generate");
    assert_eq!(request.token, None);
    assert!(fields_of(request.body).is_empty());
}

#[test]
fn generate_carries_challenge_and_never_the_client_token() {
    let client = Client::new(TOKEN);
    let request = expect_request(client.generate(Some("challenge")));
    assert_eq!(request.token, None);
    let fields = fields_of(request.body);
    assert_eq!(names(&fields), vec!["turnstileToken"]);
    assert!(matches!(fields[0].value, FieldValue::Text("challenge")));
}

#[test]
fn generated_token_serves_a_new_client() {
    let issued = "fresh-grape-hazel-ivory-jade".to_string();
    let client = Client::new(&issued);
    let data = document();
    let store = expect_request(client.store(&data, None));
    assert_eq!(store.token, Some("fresh-grape-hazel-ivory-jade"));
    let retrieve = expect_request(client.retrieve());
    assert_eq!(retrieve.token, Some("fresh-grape-hazel-ivory-jade"));
}

#[test]
fn store_without_token_is_missing_token() {
    let client = Client::new_without_token();
    let data = document();
    assert!(matches!(client.store(&data, Some(60)), Err(Error::MissingToken)));
}

#[test]
fn store_request_carries_document_and_ttl() {
    let client = Client::new(TOKEN);
    let data = document();
    let request = expect_request(client.store(&data, Some(3600)));
    assert_eq!(request.method, Method::Post);
    assert_eq!(request.url, "https://key-value.co/api/store");
    assert_eq!(request.token, Some(TOKEN));
    let fields = fields_of(request.body);
    assert_eq!(names(&fields), vec!["data", "ttl"]);
    match fields[0].value {
        FieldValue::Document(sent) => assert_eq!(sent, &document()),
        ref other => panic!("unexpected value {:?}", other),
    }
    assert!(matches!(fields[1].value, FieldValue::Integer(3600)));
}

#[test]
fn store_request_without_ttl_has_none() {
    let client = Client::new(TOKEN);
    let data = document();
    let request = expect_request(client.store(&data, None));
    let fields = fields_of(request.body);
    assert_eq!(names(&fields), vec!["data"]);
    assert!(matches!(fields[0].value, FieldValue::Document(_)));
}

#[test]
fn retrieve_request() {
    let client = Client::new(TOKEN).with_base_url("http://localhost:8080");
    let request = expect_request(client.retrieve());
    assert_eq!(request.method, Method::Get);
    assert_eq!(request.url, "http://localhost:8080/api/retrieve");
    assert_eq!(request.token, Some(TOKEN));
    assert!(matches!(request.body, Body::Empty));
}

#[test]
fn retrieve_without_token_is_missing_token() {
    assert!(matches!(Client::new_without_token().retrieve(), Err(Error::MissingToken)));
}

#[test]
fn delete_request() {
    let client = Client::new(TOKEN);
    let request = expect_request(client.delete());
    assert_eq!(request.method, Method::Delete);
    assert_eq!(request.url, "https://key-value.co/api/delete");
    assert_eq!(request.token, Some(TOKEN));
    assert!(matches!(request.body, Body::Empty));
}

#[test]
fn delete_without_token_is_missing_token() {
    assert!(matches!(Client::new_without_token().delete(), Err(Error::MissingToken)));
}

#[test]
fn patch_request_carries_version_patch_and_ttl() {
    let client = Client::new(TOKEN);
    let mut set = HashMap::new();
    set.insert("unit".to_string(), Value::String("kelvin".to_string()));
    let patch = PatchOperations { set: Some(set), remove: Some(vec!["temperature".to_string()]) };
    let request = expect_request(client.patch(7, &patch, Some(120)));
    assert_eq!(request.method, Method::Patch);
    assert_eq!(request.url, "https://key-value.co/api/store");
    assert_eq!(request.token, Some(TOKEN));
    let fields = fields_of(request.body);
    assert_eq!(names(&fields), vec!["version", "patch", "ttl"]);
    assert!(matches!(fields[0].value, FieldValue::Integer(7)));
    match fields[1].value {
        FieldValue::Patch(sent) => {
            assert_eq!(sent.remove, Some(vec!["temperature".to_string()]));
            let sent_set = sent.set.as_ref().unwrap();
            assert_eq!(sent_set.len(), 1);
            assert_eq!(sent_set.get("unit"), Some(&Value::String("kelvin".to_string())));
        }
        ref other => panic!("unexpected value {:?}", other),
    }
    assert!(matches!(fields[2].value, FieldValue::Integer(120)));
}

#[test]
fn patch_request_without_ttl_has_two_members() {
    let client = Client::new(TOKEN);
    let patch = PatchOperations { set: None, remove: None };
    let request = expect_request(client.patch(-1, &patch, None));
    let fields = fields_of(request.body);
    assert_eq!(names(&fields), vec!["version", "patch"]);
    assert!(matches!(fields[0].value, FieldValue::Integer(-1)));
}

#[test]
fn patch_without_token_is_missing_token() {
    let patch = PatchOperations { set: None, remove: None };
    assert!(matches!(
        Client::new_without_token().patch(1, &patch, None),
        Err(Error::MissingToken)
    ));
}

#[test]
fn history_without_options_has_no_query() {
    let client = Client::new(TOKEN);
    let request = expect_request(client.history(&HistoryOptions::default()));
    assert_eq!(request.method, Method::Get);
    assert_eq!(request.url, "https://key-value.co/api/history");
    assert_eq!(request.token, Some(TOKEN));
    assert!(matches!(request.body, Body::Empty));
}

#[test]
fn history_limit_five() {
    let client = Client::new(TOKEN);
    let options = HistoryOptions { limit: Some(5), before: None, since: None, type_filter: None };
    let request = expect_request(client.history(&options));
    assert_eq!(request.url, "https://key-value.co/api/history?limit=5");
}

#[test]
fn history_parameters_come_in_fixed_order() {
    let client = Client::new(TOKEN).with_base_url("http://h");
    let options = HistoryOptions {
        limit: Some(25),
        before: Some(1000),
        since: Some("2024-01-01T00:00:00Z".to_string()),
        type_filter: Some("temperature".to_string()),
    };
    let request = expect_request(client.history(&options));
    assert_eq!(
        request.url,
        "http://h/api/history?limit=25&before=1000&since=2024-01-01T00:00:00Z&type=temperature"
    );
}

#[test]
fn history_skips_absent_parameters() {
    let client = Client::new(TOKEN);
    let options = HistoryOptions {
        limit: None,
        before: Some(-3),
        since: None,
        type_filter: Some("x".to_string()),
    };
    let request = expect_request(client.history(&options));
    assert_eq!(request.url, "https://key-value.co/api/history?before=-3&type=x");
}

#[test]
fn history_writes_extreme_numbers() {
    let client = Client::new(TOKEN);
    let options = HistoryOptions {
        limit: Some(i32::MAX),
        before: Some(i32::MIN),
        since: None,
        type_filter: None,
    };
    let request = expect_request(client.history(&options));
    assert_eq!(
        request.url,
        "https://key-value.co/api/history?limit=2147483647&before=-2147483648"
    );
}

#[test]
fn history_without_token_is_missing_token() {
    let options = HistoryOptions { limit: Some(5), before: None, since: None, type_filter: None };
    assert!(matches!(Client::new_without_token().history(&options), Err(Error::MissingToken)));
}

#[test]
fn default_history_options_are_empty() {
    let options = HistoryOptions::default();
    assert_eq!(options.limit, None);
    assert_eq!(options.before, None);
    assert_eq!(options.since, None);
    assert_eq!(options.type_filter, None);
}

#[test]
fn batch_of_nothing_is_refused() {
    let client = Client::new_without_token();
    match client.batch(Vec::new()) {
        Err(Error::Validation(reason)) => assert_eq!(reason, "At least one operation required"),
        other => panic!("unexpected outcome {:?}", other),
    }
}

#[test]
fn batch_of_101_is_refused() {
    let client = Client::new(TOKEN);
    match client.batch(operations(101)) {
        Err(Error::Validation(reason)) => assert_eq!(reason, "Maximum 100 operations per batch"),
        other => panic!("unexpected outcome {:?}", other),
    }
}

#[test]
fn batch_of_one_is_sent_without_client_token() {
    let client = Client::new(TOKEN);
    let request = expect_request(client.batch(operations(1)));
    assert_eq!(request.method, Method::Post);
    assert_eq!(request.url, "https://key-value.co/api/batch");
    assert_eq!(request.token, None);
    let fields = fields_of(request.body);
    assert_eq!(names(&fields), vec!["operations"]);
    match &fields[0].value {
        FieldValue::Operations(operations) => {
            assert_eq!(operations.len(), 1);
            assert_eq!(operations[0].action, "store");
            assert_eq!(operations[0].token, "token-0");
            assert_eq!(operations[0].data, Some(document()));
        }
        other => panic!("unexpected value {:?}", other),
    }
}

#[test]
fn batch_of_100_keeps_order() {
    let client = Client::new_without_token();
    let request = expect_request(client.batch(operations(100)));
    let fields = fields_of(request.body);
    assert_eq!(names(&fields), vec!["operations"]);
    match &fields[0].value {
        FieldValue::Operations(operations) => {
            assert_eq!(operations.len(), 100);
            for (i, operation) in operations.iter().enumerate() {
                assert_eq!(operation.token, format!("token-{}", i));
            }
        }
        other => panic!("unexpected value {:?}", other),
    }
}
