use meilisearch_sdk::documents::{DocumentQuery, DocumentsQuery};
use meilisearch_sdk::client::Client;
use meilisearch_sdk::errors::Error;
use meilisearch_sdk::request::{
    add_query_parameters, append_query, body_or_null, can_encode, classify_response,
    parse_response,
    prepare_request, qualified_version, Method, ParamValue, Verb, NOT_A_REJECTION,
};
use meilisearch_sdk::errors::MeilisearchError;

const URL: &str = "http://localhost:7700/indexes/movies/documents";

fn no_query() -> Vec<(String, ParamValue)> {
    Vec::new()
}

#[test]
fn user_agent_names_client_and_version() {
    assert_eq!(qualified_version(), "Meilisearch Rust (v0.24.3)");
}

#[test]
fn verb_names_are_upper_case() {
    assert_eq!(Verb::Get.as_str(), "GET");
    assert_eq!(Verb::Post.as_str(), "POST");
    assert_eq!(Verb::Patch.as_str(), "PATCH");
    assert_eq!(Verb::Put.as_str(), "PUT");
    assert_eq!(Verb::Delete.as_str(), "DELETE");
}

#[test]
fn verb_follows_variant() {
    let get: Method<(), ()> = Method::Get { query: () };
    let post: Method<(), ()> = Method::Post { query: (), body: () };
    let patch: Method<(), ()> = Method::Patch { query: (), body: () };
    let put: Method<(), ()> = Method::Put { query: (), body: () };
    let delete: Method<(), ()> = Method::Delete { query: () };
    assert_eq!(get.http_method(), Verb::Get);
    assert_eq!(post.http_method(), Verb::Post);
    assert_eq!(patch.http_method(), Verb::Patch);
    assert_eq!(put.http_method(), Verb::Put);
    assert_eq!(delete.http_method(), Verb::Delete);
}

#[test]
fn body_only_for_post_patch_put() {
    let get: Method<u8, &str> = Method::Get { query: 1 };
    let post: Method<u8, &str> = Method::Post { query: 2, body: "a" };
    let patch: Method<u8, &str> = Method::Patch { query: 3, body: "b" };
    let put: Method<u8, &str> = Method::Put { query: 4, body: "c" };
    let delete: Method<u8, &str> = Method::Delete { query: 5 };
    assert_eq!(get.body(), None);
    assert_eq!(post.body(), Some(&"a"));
    assert_eq!(patch.body(), Some(&"b"));
    assert_eq!(put.body(), Some(&"c"));
    assert_eq!(delete.body(), None);
    assert_eq!(*get.query(), 1);
    assert_eq!(*post.query(), 2);
    assert_eq!(*patch.query(), 3);
    assert_eq!(*put.query(), 4);
    assert_eq!(*delete.query(), 5);
}

#[test]
fn empty_query_adds_no_question_mark() {
    assert_eq!(append_query(URL, ""), URL);
    let url = add_query_parameters(URL, &no_query()).unwrap();
    assert_eq!(url, URL);
    assert!(!url.contains('?'));
}

#[test]
fn encoded_query_follows_question_mark() {
    assert_eq!(append_query(URL, "limit=1"), format!("{}?limit=1", URL));
}

#[test]
fn query_values_are_encoded_in_order() {
    let query = vec![
        ("offset".to_string(), ParamValue::Number(1)),
        ("limit".to_string(), ParamValue::Number(2)),
        (
            "fields".to_string(),
            ParamValue::List(vec!["kind".to_string(), "title".to_string()]),
        ),
    ];
    let url = add_query_parameters(URL, &query).unwrap();
    assert_eq!(url, format!("{}?offset=1&limit=2&fields=kind,title", URL));
}

#[test]
fn query_texts_are_percent_encoded() {
    let query = vec![("q".to_string(), ParamValue::Text("a b&c=d/é".to_string()))];
    let url = add_query_parameters(URL, &query).unwrap();
    assert_eq!(url, format!("{}?q=a+b%26c%3Dd%2F%C3%A9", URL));
}

#[test]
fn trailing_empty_list_is_encoded_as_empty_value() {
    let query = vec![
        ("limit".to_string(), ParamValue::Number(3)),
        ("fields".to_string(), ParamValue::List(Vec::new())),
    ];
    let url = add_query_parameters(URL, &query).unwrap();
    assert_eq!(url, format!("{}?limit=3&fields=", URL));
}

#[test]
fn documents_query_omits_missing_fields() {
    let client = Client::new("http://localhost:7700", Some("masterKey"));
    let index = client.index("movies");
    let mut query = DocumentsQuery::new(&index);
    assert!(query.params().is_empty());
    query.with_limit(1);
    let url = add_query_parameters(URL, &query.params()).unwrap();
    assert_eq!(url, format!("{}?limit=1", URL));
    query.with_offset(4).with_fields(vec!["kind"]);
    let url = add_query_parameters(URL, &query.params()).unwrap();
    assert_eq!(url, format!("{}?offset=4&limit=1&fields=kind", URL));
}

#[test]
fn document_query_names_fields() {
    let client = Client::new("http://localhost:7700", None);
    let index = client.index("movies");
    let mut query = DocumentQuery::new(&index);
    assert!(query.fields.is_none());
    assert!(query.params().is_empty());
    query.with_fields(vec!["id", "title"]);
    assert_eq!(query.fields, Some(vec!["id", "title"]));
    let url = add_query_parameters(URL, &query.params()).unwrap();
    assert_eq!(url, format!("{}?fields=id,title", URL));
}

#[test]
fn authorization_header_present_with_key() {
    let method = Method::Get { query: no_query() };
    let request = prepare_request(URL, Some("masterKey"), &method, "application/json").unwrap();
    assert_eq!(request.authorization, Some("Bearer masterKey".to_string()));
    assert_eq!(request.user_agent, "Meilisearch Rust (v0.24.3)");
    assert_eq!(request.url, URL);
    assert_eq!(request.verb, Verb::Get);
    assert_eq!(request.body, None);
    assert_eq!(request.content_type, None);
}

#[test]
fn authorization_header_absent_without_key() {
    let method = Method::Get { query: no_query() };
    let request = prepare_request(URL, None, &method, "application/json").unwrap();
    assert_eq!(request.authorization, None);
}

#[test]
fn payload_travels_with_content_type() {
    let method = Method::Post {
        query: vec![("primaryKey".to_string(), ParamValue::Text("id".to_string()))],
        body: "[{\"id\":1}]".to_string(),
    };
    let request = prepare_request(URL, Some("k"), &method, "application/json").unwrap();
    assert_eq!(request.verb, Verb::Post);
    assert_eq!(request.url, format!("{}?primaryKey=id", URL));
    assert_eq!(request.body, Some("[{\"id\":1}]".to_string()));
    assert_eq!(request.content_type, Some("application/json".to_string()));

    let method = Method::Delete { query: no_query() };
    let request = prepare_request(URL, Some("k"), &method, "application/json").unwrap();
    assert_eq!(request.verb, Verb::Delete);
    assert_eq!(request.body, None);
    assert_eq!(request.content_type, None);
}

#[test]
fn empty_body_stands_for_null() {
    assert_eq!(body_or_null(""), "null");
    assert_eq!(body_or_null("{}"), "{}");
    let document = parse_response(204, 204, "", URL.to_string()).unwrap();
    assert_eq!(document.raw, "null");
    assert!(document.members.is_none());
    match parse_response(500, 204, "", URL.to_string()) {
        Err(Error::MeilisearchCommunication(e)) => {
            assert_eq!(e.status_code, 500);
            assert_eq!(e.url, URL);
        }
        other => panic!("unexpected outcome: {:?}", other),
    }
    match parse_response(200, 204, "", URL.to_string()) {
        Err(Error::ParseError(message)) => assert_eq!(message, NOT_A_REJECTION),
        other => panic!("unexpected outcome: {:?}", other),
    }
}

#[test]
fn expected_status_returns_parsed_body() {
    let document = parse_response(200, 200, "{\"a\": 1, \"b\": \"x\"}", URL.to_string()).unwrap();
    assert_eq!(document.unsigned_of("a"), Some(1));
    assert_eq!(document.text_of("b"), Some("x".to_string()));
    assert_eq!(document.text_of("a"), None);
    assert_eq!(document.raw_of("c"), None);
    assert_eq!(document.raw, "{\"a\":1,\"b\":\"x\"}");
}

#[test]
fn expected_status_with_unparseable_body_is_parse_error() {
    let result = parse_response(200, 200, "<html>", URL.to_string());
    assert!(matches!(result, Err(Error::ParseError(_))));
}

#[test]
fn unexpected_status_with_service_error_body() {
    let body = "{\"errorCode\":\"index_not_found\",\"errorMessage\":\"Index movies not found\"}";
    match parse_response(404, 200, body, URL.to_string()) {
        Err(Error::Meilisearch(e)) => {
            assert_eq!(e.error_code, "index_not_found");
            assert_eq!(e.error_message, "Index movies not found");
            assert_eq!(e.url, URL);
        }
        other => panic!("unexpected outcome: {:?}", other),
    }
    // The status need not be an error status for the rejection to count.
    match parse_response(200, 202, body, URL.to_string()) {
        Err(Error::Meilisearch(e)) => assert_eq!(e.error_code, "index_not_found"),
        other => panic!("unexpected outcome: {:?}", other),
    }
}

#[test]
fn unexpected_error_status_with_unparseable_body_is_communication_error() {
    match parse_response(502, 200, "<html>Bad Gateway</html>", URL.to_string()) {
        Err(Error::MeilisearchCommunication(e)) => {
            assert_eq!(e.status_code, 502);
            assert_eq!(e.message, None);
            assert_eq!(e.url, URL);
        }
        other => panic!("unexpected outcome: {:?}", other),
    }
    match parse_response(400, 200, "{\"errorCode\": 3}", URL.to_string()) {
        Err(Error::MeilisearchCommunication(e)) => assert_eq!(e.status_code, 400),
        other => panic!("unexpected outcome: {:?}", other),
    }
}

#[test]
fn unexpected_harmless_status_with_unparseable_body_is_parse_error() {
    let result = parse_response(399, 200, "not json", URL.to_string());
    assert!(matches!(result, Err(Error::ParseError(_))));
    match parse_response(200, 202, "{\"id\": 1}", URL.to_string()) {
        Err(Error::ParseError(message)) => assert_eq!(message, NOT_A_REJECTION),
        other => panic!("unexpected outcome: {:?}", other),
    }
}

#[test]
fn classification_of_decoded_values() {
    let rejection = || MeilisearchError {
        error_code: "invalid_request".to_string(),
        error_message: "bad".to_string(),
        url: URL.to_string(),
    };
    let ok: Result<u32, Error> =
        classify_response(200, 200, Ok(5), Ok(rejection()), URL.to_string());
    assert!(matches!(ok, Ok(5)));
    let parse: Result<u32, Error> = classify_response(
        200,
        200,
        Err("expected a number".to_string()),
        Ok(rejection()),
        URL.to_string(),
    );
    match parse {
        Err(Error::ParseError(message)) => assert_eq!(message, "expected a number"),
        other => panic!("unexpected outcome: {:?}", other),
    }
    let service: Result<u32, Error> =
        classify_response(400, 200, Ok(5), Ok(rejection()), URL.to_string());
    match service {
        Err(Error::Meilisearch(e)) => assert_eq!(e.error_code, "invalid_request"),
        other => panic!("unexpected outcome: {:?}", other),
    }
    let communication: Result<u32, Error> =
        classify_response(500, 200, Ok(5), Err("gibberish".to_string()), URL.to_string());
    match communication {
        Err(Error::MeilisearchCommunication(e)) => {
            assert_eq!(e.status_code, 500);
            assert_eq!(e.url, URL);
        }
        other => panic!("unexpected outcome: {:?}", other),
    }
    let anomalous: Result<u32, Error> =
        classify_response(301, 200, Ok(5), Err("gibberish".to_string()), URL.to_string());
    match anomalous {
        Err(Error::ParseError(message)) => assert_eq!(message, "gibberish"),
        other => panic!("unexpected outcome: {:?}", other),
    }
}

#[test]
fn first_member_of_a_name_is_found() {
    let document = parse_response(200, 200, "{\"b\": [1, 2], \"a\": {\"c\": null}}", URL.to_string())
        .unwrap();
    assert_eq!(document.raw_of("b"), Some("[1,2]".to_string()));
    assert_eq!(document.raw_of("a"), Some("{\"c\":null}".to_string()));
    let members = document.members.as_ref().unwrap();
    assert_eq!(members.len(), 2);
    assert_eq!(members[0].0, "b");
    assert_eq!(members[1].0, "a");
    assert!(document.get("c").is_none());
    assert_eq!(document.get("a").unwrap().unsigned, None);
}

#[test]
fn empty_list_may_only_come_last() {
    let list = |items: &[&str]| ParamValue::List(items.iter().map(|s| s.to_string()).collect());
    assert!(can_encode(&Vec::new()));
    assert!(can_encode(&vec![("a".to_string(), list(&[]))]));
    assert!(can_encode(&vec![("a".to_string(), list(&["x"])), ("b".to_string(), list(&[]))]));
    assert!(!can_encode(&vec![("a".to_string(), list(&[])), ("b".to_string(), ParamValue::Number(1))]));
    assert!(!can_encode(&vec![
        ("a".to_string(), ParamValue::Number(1)),
        ("b".to_string(), list(&[])),
        ("c".to_string(), list(&[])),
    ]));
    assert!(!can_encode(&vec![
        ("a".to_string(), ParamValue::Number(1)),
        ("b".to_string(), ParamValue::Number(2)),
        ("a".to_string(), list(&[])),
    ]));
    assert!(can_encode(&vec![
        ("a".to_string(), ParamValue::Number(1)),
        ("b".to_string(), ParamValue::Number(2)),
        ("a".to_string(), list(&["x"])),
    ]));
}

#[test]
fn repeated_key_keeps_its_first_place_and_last_value() {
    let query = vec![
        ("a".to_string(), ParamValue::Number(1)),
        ("b".to_string(), ParamValue::Number(2)),
        ("a".to_string(), ParamValue::Text("x".to_string())),
    ];
    let url = add_query_parameters(URL, &query).unwrap();
    assert_eq!(url, format!("{}?a=x&b=2", URL));
}
