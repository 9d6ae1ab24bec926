use randomorg::error::is_success;
use randomorg::{
    DecodeError, Error, ErrorCode, GenerateIntegersResult, GetUsageResult, Json, Parameter,
    Response, ResponseError,
};

const INVALID_KEY: &str =
    r#"{"jsonrpc":"2.0","error":{"code":401,"message":"Invalid API key"},"id":1}"#;

#[test]
fn a_reported_failure_is_a_service_error() {
    match Error::from_response(401, INVALID_KEY.to_owned()) {
        Error::RandomOrg(status, e) => {
            assert_eq!(status, 401);
            assert_eq!(e.code, ErrorCode(401));
            assert_eq!(e.message, "Invalid API key");
        }
        other => panic!("another error: {:?}", other),
    }
    match Response::<GetUsageResult>::from_reply(401, INVALID_KEY.to_owned()) {
        Err(Error::RandomOrg(401, e)) => {
            assert_eq!(e.code, ErrorCode(401));
            assert_eq!(e.message, "Invalid API key");
        }
        other => panic!("another outcome: {:?}", other),
    }
}

#[test]
fn a_failure_without_an_error_object_is_a_bare_status() {
    for body in [
        "upstream failed",
        "",
        r#"{"jsonrpc":"2.0","id":1}"#,
        r#"{"error":"Invalid API key"}"#,
        r#"{"error":{"code":-32600,"message":"Invalid Request"}}"#,
        r#"{"error":{"code":"401","message":"Invalid API key"}}"#,
        r#"{"error":{"code":401}}"#,
        r#"{"error":{"code":401,"message":17}}"#,
        r#"[{"error":{"code":401,"message":"Invalid API key"}}]"#,
    ] {
        match Error::from_response(502, body.to_owned()) {
            Error::Status(status, text) => {
                assert_eq!(status, 502);
                assert_eq!(text, body);
            }
            other => panic!("another error for {}: {:?}", body, other),
        }
    }
}

#[test]
fn a_success_status_never_makes_a_service_error() {
    match Error::from_response(200, INVALID_KEY.to_owned()) {
        Error::Status(200, text) => assert_eq!(text, INVALID_KEY),
        other => panic!("another error: {:?}", other),
    }
}

#[test]
fn the_parsed_body_decides_as_the_body_does() {
    let parsed = Json::parse(INVALID_KEY);
    match Error::from_parsed_reply(403, INVALID_KEY.to_owned(), &parsed) {
        Error::RandomOrg(403, e) => assert_eq!(e.message, "Invalid API key"),
        other => panic!("another error: {:?}", other),
    }
    let failed: Result<Json, String> = Err("no document".to_owned());
    match Error::from_parsed_reply(403, INVALID_KEY.to_owned(), &failed) {
        Error::Status(403, text) => assert_eq!(text, INVALID_KEY),
        other => panic!("another error: {:?}", other),
    }
}

#[test]
fn the_error_object_is_read_from_a_document() {
    let doc = Json::parse(INVALID_KEY).unwrap();
    let e: ResponseError = ResponseError::from_json(&doc).unwrap();
    assert_eq!(e.code, ErrorCode(401));
    assert_eq!(e.message, "Invalid API key");
    let doc = Json::parse(r#"{"result":{}}"#).unwrap();
    assert!(ResponseError::from_json(&doc).is_none());
}

#[test]
fn the_success_range_is_200_to_299() {
    assert!(!is_success(0));
    assert!(!is_success(199));
    assert!(is_success(200));
    assert!(is_success(204));
    assert!(is_success(299));
    assert!(!is_success(300));
    assert!(!is_success(401));
    assert!(!is_success(u16::MAX));
}

fn decode_error(body: &str) -> DecodeError {
    match Response::<GenerateIntegersResult>::from_reply(200, body.to_owned()) {
        Err(Error::Json(e)) => e,
        other => panic!("another outcome for {}: {:?}", body, other),
    }
}

const GOOD: &str = r#"{"jsonrpc":"2.0","result":{"random":{"data":[1,5],"completionTime":"2011-10-10 13:19:12Z"},"bitsUsed":16,"bitsLeft":199984,"requestsLeft":9999,"advisoryDelay":0},"id":42}"#;

#[test]
fn a_body_that_is_no_json_is_a_syntax_error() {
    match decode_error("{\"jsonrpc\": ") {
        DecodeError::Syntax(message) => assert!(message.contains("EOF"), "{}", message),
        other => panic!("another error: {:?}", other),
    }
    match decode_error("") {
        DecodeError::Syntax(_) => {}
        other => panic!("another error: {:?}", other),
    }
}

#[test]
fn a_missing_member_is_named() {
    for (member, quoted) in [
        ("jsonrpc", "\"jsonrpc\":"),
        ("result", "\"result\":"),
        ("id", "\"id\":"),
        ("random", "\"random\":"),
        ("data", "\"data\":"),
        ("completionTime", "\"completionTime\":"),
        ("bitsUsed", "\"bitsUsed\":"),
        ("bitsLeft", "\"bitsLeft\":"),
        ("requestsLeft", "\"requestsLeft\":"),
        ("advisoryDelay", "\"advisoryDelay\":"),
    ] {
        let body = GOOD.replace(quoted, "\"other\":");
        match decode_error(&body) {
            DecodeError::Missing(name) => assert_eq!(name, member),
            other => panic!("another error for {}: {:?}", member, other),
        }
    }
    match decode_error("[1, 2]") {
        DecodeError::Missing(name) => assert_eq!(name, "jsonrpc"),
        other => panic!("another error: {:?}", other),
    }
}

#[test]
fn a_member_of_the_wrong_kind_is_named() {
    for (member, from, to) in [
        ("jsonrpc", "\"jsonrpc\":\"2.0\"", "\"jsonrpc\":2.0"),
        ("id", "\"id\":42", "\"id\":\"42\""),
        ("id", "\"id\":42", "\"id\":-42"),
        ("id", "\"id\":42", "\"id\":42.0"),
        ("data", "[1,5]", "[1,\"5\"]"),
        ("data", "[1,5]", "[1,5.5]"),
        ("data", "[1,5]", "[1,2147483648]"),
        ("data", "[1,5]", "[-2147483649]"),
        ("data", "[1,5]", "{}"),
        ("completionTime", "\"2011-10-10 13:19:12Z\"", "20111010"),
        ("bitsUsed", "\"bitsUsed\":16", "\"bitsUsed\":null"),
        ("bitsLeft", "\"bitsLeft\":199984", "\"bitsLeft\":-1"),
        ("requestsLeft", "\"requestsLeft\":9999", "\"requestsLeft\":[9999]"),
        ("advisoryDelay", "\"advisoryDelay\":0", "\"advisoryDelay\":true"),
    ] {
        let body = GOOD.replace(from, to);
        assert_ne!(body, GOOD);
        match decode_error(&body) {
            DecodeError::Invalid(name) => assert_eq!(name, member),
            other => panic!("another error for {}: {:?}", to, other),
        }
    }
}

#[test]
fn the_bounds_of_the_integers_are_read() {
    let body = GOOD.replace("[1,5]", "[-2147483648,2147483647,0]");
    let reply = Response::<GenerateIntegersResult>::from_reply(200, body).unwrap();
    assert_eq!(reply.result.random.data, vec![i32::MIN, i32::MAX, 0]);
    let body = GOOD.replace("\"bitsLeft\":199984", "\"bitsLeft\":18446744073709551615");
    let reply = Response::<GenerateIntegersResult>::from_reply(299, body).unwrap();
    assert_eq!(reply.result.bits_left, u64::MAX);
    let body = GOOD.replace("[1,5]", "[]");
    let reply = Response::<GenerateIntegersResult>::from_reply(200, body).unwrap();
    assert!(reply.result.random.data.is_empty());
}

#[test]
fn an_unknown_status_of_the_key_is_invalid() {
    let body = r#"{"jsonrpc":"2.0","result":{"status":"revoked","creationTime":"2017-06-22 13:32:16Z","bitsLeft":1,"requestsLeft":1,"totalBits":0,"totalRequests":0},"id":1}"#;
    match Response::<GetUsageResult>::from_body(body) {
        Err(DecodeError::Invalid(name)) => assert_eq!(name, "status"),
        other => panic!("another outcome: {:?}", other),
    }
}

#[test]
fn a_bad_timestamp_holds_the_message_and_the_text() {
    let body = GOOD.replace("2011-10-10 13:19:12Z", "2011-10-10T13:19:12");
    match decode_error(&body) {
        DecodeError::Timestamp(message, text) => {
            assert_eq!(text, "2011-10-10T13:19:12");
            assert_eq!(message, "input contains invalid characters");
        }
        other => panic!("another error: {:?}", other),
    }
}

#[test]
fn errors_are_said_in_words() {
    assert_eq!(Error::Transport("connection refused".to_owned()).description(), "connection refused");
    assert_eq!(Error::Encode("no".to_owned()).description(), "no");
    assert_eq!(Error::Status(404, "gone".to_owned()).description(), "Not Found");
    assert_eq!(Error::Status(799, "?".to_owned()).description(), "Unknown bad HTTP status");
    assert_eq!(Error::Status(42, "?".to_owned()).description(), "Unknown bad HTTP status");
    let reported = Error::from_response(401, INVALID_KEY.to_owned());
    assert_eq!(reported.description(), "Unauthorized");
    assert_eq!(
        Error::InvalidParameter(Parameter::StandardDeviation).description(),
        "parameter out of range: standard_deviation"
    );
    assert_eq!(
        Error::Json(DecodeError::Missing("id".to_owned())).description(),
        "missing field `id`"
    );
    assert_eq!(
        Error::Json(DecodeError::Invalid("id".to_owned())).description(),
        "invalid value of field `id`"
    );
    assert_eq!(Error::Json(DecodeError::Syntax("x".to_owned())).description(), "x");
    assert_eq!(
        DecodeError::Timestamp("premature end of input".to_owned(), "2011".to_owned())
            .description(),
        "Parse error premature end of input for 2011"
    );
    assert_eq!(
        Error::Status(500, String::new()).description_with(Some("reason")),
        "reason"
    );
    assert_eq!(
        Error::Status(500, String::new()).description_with(None),
        "Unknown bad HTTP status"
    );
}

#[test]
fn every_parameter_has_its_name() {
    assert_eq!(Parameter::Min.name(), "min");
    assert_eq!(Parameter::Max.name(), "max");
    assert_eq!(Parameter::Limit.name(), "limit");
    assert_eq!(Parameter::DecimalPlaces.name(), "decimal_places");
    assert_eq!(Parameter::Mean.name(), "mean");
    assert_eq!(Parameter::StandardDeviation.name(), "standard_deviation");
    assert_eq!(Parameter::SignificantDigits.name(), "significant_digits");
    assert_eq!(Parameter::Length.name(), "length");
    assert_eq!(Parameter::Characters.name(), "characters");
    assert_eq!(Parameter::Size.name(), "size");
}
