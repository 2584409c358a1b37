use aur::{
    DecodeError, Error, InfoResult, Json, JsonNumber, RawResponse, Search, SearchResult,
    check_status, decode_info, decode_search, read_response,
};

fn s(text: &str) -> Json {
    Json::Str(text.to_string())
}

fn n(value: u64) -> Json {
    Json::Number(JsonNumber::PosInt(value))
}

fn obj(members: Vec<(&str, Json)>) -> Json {
    Json::Object(members.into_iter().map(|(k, v)| (k.to_string(), v)).collect())
}

fn summary(name: &str) -> Json {
    obj(vec![
        ("ID", n(1)),
        ("Name", s(name)),
        ("PackageBaseID", n(2)),
        ("PackageBase", s(name)),
        ("Version", s("1.0-1")),
        ("Description", s("a package")),
        ("URL", Json::Null),
        ("NumVotes", n(7)),
        ("Popularity", Json::Number(JsonNumber::Float("0.25".to_string()))),
        ("OutOfDate", Json::Null),
        ("Maintainer", s("someone")),
        ("FirstSubmitted", n(100)),
        ("LastModified", n(200)),
        ("URLPath", s("/cgit/aur.git/snapshot/pkg.tar.gz")),
    ])
}

fn envelope(count: u64, results: Vec<Json>) -> Json {
    obj(vec![
        ("version", n(5)),
        ("type", s("search")),
        ("resultcount", n(count)),
        ("results", Json::Array(results)),
    ])
}

fn response(status: u16, body: &str) -> RawResponse {
    RawResponse { status, headers: Vec::new(), body: body.as_bytes().to_vec() }
}

#[test]
fn ok_status_passes_body_on() {
    assert_eq!(check_status(response(200, "{}")).unwrap(), b"{}".to_vec());
}

#[test]
fn bad_request_status_keeps_response() {
    match check_status(response(400, "nope")) {
        Err(Error::BadRequest(raw)) => {
            assert_eq!(raw.status, 400);
            assert_eq!(raw.body, b"nope".to_vec());
        },
        other => panic!("unexpected {:?}", other),
    }
}

#[test]
fn unavailable_status_is_invalid_request() {
    match check_status(response(503, "down")) {
        Err(Error::InvalidRequest(raw)) => assert_eq!(raw.status, 503),
        other => panic!("unexpected {:?}", other),
    }
    assert!(matches!(check_status(response(404, "")), Err(Error::InvalidRequest(_))));
}

#[test]
fn read_response_does_not_decode_error_statuses() {
    let body = r#"{"resultcount":1,"results":[],"type":"info","version":5}"#;
    assert!(matches!(read_response(response(400, body)), Err(Error::BadRequest(_))));
    assert!(matches!(read_response(response(503, body)), Err(Error::InvalidRequest(_))));
    assert!(matches!(read_response(response(503, "not json")), Err(Error::InvalidRequest(_))));
}

#[test]
fn read_response_malformed_body_is_json_error() {
    assert!(matches!(read_response(response(200, "{\"results\": [")), Err(Error::Json(_))));
    assert!(matches!(read_response(response(200, "")), Err(Error::Json(_))));
}

#[test]
fn read_response_parses_well_formed_body() {
    let body = r#"{"resultcount":3,"results":[],"type":"search","version":5}"#;
    let value = read_response(response(200, body)).unwrap();
    let expected: serde_json::Value = serde_json::from_str(body).unwrap();
    assert_eq!(value, expected);
    assert_eq!(value["resultcount"].as_u64(), Some(3));
}

#[test]
fn result_count_is_kept_verbatim() {
    let doc = envelope(5, vec![summary("rust-nightly")]);
    let search: Search<SearchResult> = decode_search(&doc).unwrap();
    assert_eq!(search.result_count, 5);
    assert_eq!(search.results.len(), 1);
    assert_eq!(search.type_, "search");
    assert_eq!(search.version, 5);
    let first = &search.results[0];
    assert_eq!(first.name, "rust-nightly");
    assert_eq!(first.id, 1);
    assert_eq!(first.url, None);
    assert_eq!(first.maintainer, Some("someone".to_string()));
    assert_eq!(first.out_of_date, None);
    assert!(matches!(&first.popularity, JsonNumber::Float(t) if t == "0.25"));
}

#[test]
fn info_lists_default_to_empty() {
    let mut members = match summary("cargo") {
        Json::Object(m) => m,
        _ => unreachable!(),
    };
    members.push(("Depends".to_string(), Json::Array(vec![s("gcc-libs"), s("curl")])));
    members.push(("Maintainer".to_string(), Json::Null));
    let doc = envelope(1, vec![Json::Object(members)]);
    let search: Search<InfoResult> = decode_info(&doc).unwrap();
    let info = &search.results[0];
    assert_eq!(info.dependencies, vec!["gcc-libs".to_string(), "curl".to_string()]);
    assert!(info.make_depends.is_empty());
    assert!(info.conflicts.is_empty());
    assert!(info.license.is_empty());
    assert_eq!(info.maintainer, None);
}

#[test]
fn missing_results_is_decode_error() {
    let doc = obj(vec![("resultcount", n(0)), ("type", s("search")), ("version", n(5))]);
    assert!(matches!(
        decode_search(&doc),
        Err(Error::Decode(DecodeError::MissingField("results")))
    ));
}

#[test]
fn wrong_field_type_is_decode_error() {
    let mut members = match summary("x") {
        Json::Object(m) => m,
        _ => unreachable!(),
    };
    members.push(("ID".to_string(), s("one")));
    let doc = envelope(1, vec![Json::Object(members)]);
    assert!(matches!(decode_search(&doc), Err(Error::Decode(DecodeError::WrongType("ID")))));
    let lists = envelope(1, vec![obj(vec![("Depends", Json::Null)])]);
    assert!(matches!(decode_info(&lists), Err(Error::Decode(DecodeError::WrongType("Depends")))));
}

#[test]
fn non_object_document_is_decode_error() {
    assert!(matches!(
        decode_search(&Json::Array(vec![])),
        Err(Error::Decode(DecodeError::NotAnObject))
    ));
    let doc = envelope(1, vec![n(3)]);
    assert!(matches!(decode_info(&doc), Err(Error::Decode(DecodeError::NotAnObject))));
}

#[test]
fn negative_count_is_wrong_type() {
    let doc = obj(vec![
        ("results", Json::Array(vec![])),
        ("resultcount", Json::Number(JsonNumber::NegInt(-1))),
        ("type", s("search")),
        ("version", n(5)),
    ]);
    assert!(matches!(
        decode_search(&doc),
        Err(Error::Decode(DecodeError::WrongType("resultcount")))
    ));
}

#[test]
fn bad_request_keeps_headers() {
    let raw = RawResponse {
        status: 400,
        headers: vec![("content-type".to_string(), b"text/plain".to_vec())],
        body: Vec::new(),
    };
    match check_status(raw) {
        Err(Error::BadRequest(kept)) => assert_eq!(kept.headers[0].1, b"text/plain".to_vec()),
        other => panic!("unexpected {:?}", other),
    }
}

#[test]
fn wrapped_error_descriptions_are_their_own_text() {
    let inner = "".parse::<http::Uri>().unwrap_err();
    let text = inner.to_string();
    let outer = "".parse::<http::Uri>().unwrap_err();
    assert_eq!(Error::Uri(outer).description(), text);
    let json = serde_json::from_str::<serde_json::Value>("{").unwrap_err();
    let json_text = json.to_string();
    assert_eq!(Error::from(json).description(), json_text);
    assert!(matches!(Error::from(DecodeError::NotAnObject), Error::Decode(DecodeError::NotAnObject)));
}

#[test]
fn error_descriptions() {
    assert_eq!(Error::BadRequest(response(400, "")).description(), "Request bad");
    assert_eq!(Error::InvalidRequest(response(503, "")).description(), "Request invalid");
    assert_eq!(Error::Transport("down".to_string()).description(), "HTTP exchange failed");
    assert_eq!(
        Error::Decode(DecodeError::NotAnObject).description(),
        "body does not match the expected schema"
    );
}
