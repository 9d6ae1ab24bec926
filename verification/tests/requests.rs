use randomorg::params::Params;
use randomorg::requests::{
    EmptyRequest, GenerateBlobsRequest, GenerateDecimalFractionsRequest,
    GenerateGaussiansRequest, GenerateIntegersRequest, GenerateStringsRequest,
    GenerateUUIDsRequest,
};
use randomorg::{AllowedCharacters, ApiKey, Error, Method, Parameter, Random, Request, RequestId};
use serde_json::Value;

fn key() -> ApiKey {
    ApiKey("SECRET-REDACTED".to_owned())
}

fn sent<P: Params>(request: &Request<P>) -> Value {
    let body = request.to_body().unwrap();
    serde_json::from_str(&body).unwrap()
}

fn members(value: &Value) -> Vec<String> {
    let mut names: Vec<String> = value.as_object().unwrap().keys().cloned().collect();
    names.sort();
    names
}

fn check_envelope(sent: &Value, method: &str, params: &[&str]) {
    assert_eq!(members(sent), vec!["id", "jsonrpc", "method", "params"]);
    assert_eq!(sent["jsonrpc"], Value::from("2.0"));
    assert_eq!(sent["method"], Value::from(method));
    assert_eq!(sent["id"], Value::from(1u64));
    let mut expected: Vec<String> = params.iter().map(|p| p.to_string()).collect();
    expected.sort();
    assert_eq!(members(&sent["params"]), expected);
    assert_eq!(sent["params"]["apiKey"], Value::from("SECRET-REDACTED"));
}

#[test]
fn integers_request_goes_out_with_four_members() {
    let request = GenerateIntegersRequest::new(key(), -5, 7, 3, false);
    assert_eq!(request.id, RequestId(1));
    assert_eq!(request.method.name(), "generateIntegers");
    let sent = sent(&request);
    check_envelope(&sent, "generateIntegers", &["apiKey", "min", "max", "n", "replacement"]);
    assert_eq!(sent["params"]["min"], Value::from(-5));
    assert_eq!(sent["params"]["max"], Value::from(7));
    assert_eq!(sent["params"]["n"], Value::from(3));
    assert_eq!(sent["params"]["replacement"], Value::from(false));
}

#[test]
fn decimal_fractions_request_goes_out_with_four_members() {
    let sent = sent(&GenerateDecimalFractionsRequest::new(key(), 10, 8));
    check_envelope(&sent, "generateDecimalFractions", &["apiKey", "n", "decimalPlaces"]);
    assert_eq!(sent["params"]["n"], Value::from(10));
    assert_eq!(sent["params"]["decimalPlaces"], Value::from(8));
}

#[test]
fn gaussians_request_goes_out_with_four_members() {
    let sent = sent(&GenerateGaussiansRequest::new(key(), 2000, 1100, -100, 4));
    check_envelope(
        &sent,
        "generateGaussians",
        &["apiKey", "n", "mean", "standardDeviation", "significantDigits"],
    );
    assert_eq!(sent["params"]["n"], Value::from(2000));
    assert_eq!(sent["params"]["mean"], Value::from(1100));
    assert_eq!(sent["params"]["standardDeviation"], Value::from(-100));
    assert_eq!(sent["params"]["significantDigits"], Value::from(4));
}

#[test]
fn strings_request_goes_out_with_four_members() {
    let characters = AllowedCharacters::from_chars("abcde");
    let sent = sent(&GenerateStringsRequest::new(key(), 5, 10, characters));
    check_envelope(&sent, "generateStrings", &["apiKey", "n", "length", "characters"]);
    assert_eq!(sent["params"]["n"], Value::from(5));
    assert_eq!(sent["params"]["length"], Value::from(10));
    assert_eq!(sent["params"]["characters"], Value::from("abcde"));
}

#[test]
fn uuids_request_goes_out_with_four_members() {
    let sent = sent(&GenerateUUIDsRequest::new(key(), 5));
    check_envelope(&sent, "generateUUIDs", &["apiKey", "n"]);
    assert_eq!(sent["params"]["n"], Value::from(5));
}

#[test]
fn blobs_request_goes_out_with_four_members() {
    let sent = sent(&GenerateBlobsRequest::new(key(), 5, 16));
    check_envelope(&sent, "generateBlobs", &["apiKey", "n", "size"]);
    assert_eq!(sent["params"]["n"], Value::from(5));
    assert_eq!(sent["params"]["size"], Value::from(16));
}

#[test]
fn usage_request_goes_out_with_four_members() {
    let request = EmptyRequest::new(Method::GetUsage, key());
    check_envelope(&sent(&request), "getUsage", &["apiKey"]);
    check_envelope(&sent(&Random::new("SECRET-REDACTED").get_usage()), "getUsage", &["apiKey"]);
}

#[test]
fn the_body_is_the_text_of_the_document() {
    let request = GenerateUUIDsRequest::new(key(), 5);
    assert_eq!(request.to_body().unwrap(), request.to_json().to_text().unwrap());
    assert_eq!(
        request.to_body().unwrap(),
        r#"{"id":1,"jsonrpc":"2.0","method":"generateUUIDs","params":{"apiKey":"SECRET-REDACTED","n":5}}"#
    );
}

#[test]
fn an_api_key_with_quotes_goes_out_escaped() {
    let request = EmptyRequest::new(Method::GetUsage, ApiKey("a\"b\\c".to_owned()));
    assert_eq!(sent(&request)["params"]["apiKey"], Value::from("a\"b\\c"));
}

#[test]
fn every_method_has_its_wire_name() {
    assert_eq!(Method::GenerateIntegers.name(), "generateIntegers");
    assert_eq!(Method::GenerateDecimalFractions.name(), "generateDecimalFractions");
    assert_eq!(Method::GenerateGaussians.name(), "generateGaussians");
    assert_eq!(Method::GenerateStrings.name(), "generateStrings");
    assert_eq!(Method::GenerateUUIDs.name(), "generateUUIDs");
    assert_eq!(Method::GenerateBlobs.name(), "generateBlobs");
    assert_eq!(Method::GetUsage.name(), "getUsage");
}

#[test]
fn allowed_characters_go_out_once_whatever_their_order() {
    let forward = AllowedCharacters::from_chars("abcde");
    let backward = AllowedCharacters::from_chars("edcba");
    let repeated = AllowedCharacters::from_chars("ebadcabcde");
    assert_eq!(forward.to_text(), "abcde");
    assert_eq!(backward.to_text(), "abcde");
    assert_eq!(repeated.to_text(), "abcde");
    assert_eq!(repeated.len(), 5);
}

#[test]
fn allowed_characters_grow_by_insertion() {
    let mut characters = AllowedCharacters::new();
    assert_eq!(characters.len(), 0);
    assert_eq!(characters.to_text(), "");
    assert!(characters.insert('m'));
    assert!(characters.insert('z'));
    assert!(characters.insert('a'));
    assert!(!characters.insert('m'));
    assert!(characters.insert('é'));
    assert_eq!(characters.to_text(), "amzé");
    assert_eq!(characters.len(), 4);
}

fn out_of_range<P>(r: Result<Request<P>, Error>) -> Parameter {
    match r {
        Err(Error::InvalidParameter(p)) => p,
        Err(e) => panic!("another error: {:?}", e),
        Ok(_) => panic!("the request was accepted"),
    }
}

#[test]
fn the_limit_of_integers_is_checked_at_its_bounds() {
    let r = Random::new("SECRET-REDACTED");
    assert_eq!(out_of_range(r.generate_integers(0, 100, 0, true)), Parameter::Limit);
    assert_eq!(out_of_range(r.generate_integers(0, 100, 10001, true)), Parameter::Limit);
    assert!(r.generate_integers(0, 100, 1, true).is_ok());
    assert!(r.generate_integers(0, 100, 10000, true).is_ok());
}

#[test]
fn the_bounds_of_integers_are_checked() {
    let r = Random::new("SECRET-REDACTED");
    assert!(r.generate_integers(-1_000_000_000, 1_000_000_000, 1, true).is_ok());
    assert_eq!(out_of_range(r.generate_integers(-1_000_000_001, 0, 1, true)), Parameter::Min);
    assert_eq!(out_of_range(r.generate_integers(1_000_000_001, 0, 1, true)), Parameter::Min);
    assert_eq!(out_of_range(r.generate_integers(0, 1_000_000_001, 1, true)), Parameter::Max);
    assert_eq!(out_of_range(r.generate_integers(0, -1_000_000_001, 1, true)), Parameter::Max);
    // the first parameter out of range is the one that is named
    assert_eq!(out_of_range(r.generate_integers(i32::MIN, i32::MAX, 0, true)), Parameter::Min);
}

#[test]
fn decimal_fractions_are_checked() {
    let r = Random::new("SECRET-REDACTED");
    assert!(r.generate_decimal_fractions(1, 1).is_ok());
    assert!(r.generate_decimal_fractions(10000, 20).is_ok());
    assert_eq!(out_of_range(r.generate_decimal_fractions(0, 4)), Parameter::Limit);
    assert_eq!(out_of_range(r.generate_decimal_fractions(10001, 4)), Parameter::Limit);
    assert_eq!(out_of_range(r.generate_decimal_fractions(10, 0)), Parameter::DecimalPlaces);
    assert_eq!(out_of_range(r.generate_decimal_fractions(10, 21)), Parameter::DecimalPlaces);
}

#[test]
fn gaussians_are_checked() {
    let r = Random::new("SECRET-REDACTED");
    assert!(r.generate_gaussians(1, -1_000_000, 1_000_000, 2).is_ok());
    assert!(r.generate_gaussians(10000, 1_000_000, -1_000_000, 20).is_ok());
    assert_eq!(out_of_range(r.generate_gaussians(0, 0, 0, 2)), Parameter::Limit);
    assert_eq!(out_of_range(r.generate_gaussians(1, 1_000_001, 0, 2)), Parameter::Mean);
    assert_eq!(out_of_range(r.generate_gaussians(1, -1_000_001, 0, 2)), Parameter::Mean);
    assert_eq!(
        out_of_range(r.generate_gaussians(1, 0, 1_000_001, 2)),
        Parameter::StandardDeviation
    );
    assert_eq!(out_of_range(r.generate_gaussians(1, 0, 0, 1)), Parameter::SignificantDigits);
    assert_eq!(out_of_range(r.generate_gaussians(1, 0, 0, 21)), Parameter::SignificantDigits);
}

#[test]
fn strings_are_checked() {
    let r = Random::new("SECRET-REDACTED");
    assert!(r.generate_strings(1, 1, AllowedCharacters::from_chars("a")).is_ok());
    assert!(r.generate_strings(10000, 20, AllowedCharacters::from_chars("abc")).is_ok());
    assert_eq!(
        out_of_range(r.generate_strings(0, 1, AllowedCharacters::from_chars("a"))),
        Parameter::Limit
    );
    assert_eq!(
        out_of_range(r.generate_strings(1, 0, AllowedCharacters::from_chars("a"))),
        Parameter::Length
    );
    assert_eq!(
        out_of_range(r.generate_strings(1, 21, AllowedCharacters::from_chars("a"))),
        Parameter::Length
    );
    assert_eq!(
        out_of_range(r.generate_strings(1, 1, AllowedCharacters::new())),
        Parameter::Characters
    );
    let eighty: String = (0..80u32).map(|i| char::from_u32(0x4e00 + i).unwrap()).collect();
    let eighty_one: String = (0..81u32).map(|i| char::from_u32(0x4e00 + i).unwrap()).collect();
    assert!(r.generate_strings(1, 1, AllowedCharacters::from_chars(&eighty)).is_ok());
    assert_eq!(
        out_of_range(r.generate_strings(1, 1, AllowedCharacters::from_chars(&eighty_one))),
        Parameter::Characters
    );
}

#[test]
fn uuids_are_checked() {
    let r = Random::new("SECRET-REDACTED");
    assert!(r.generate_uuids(1).is_ok());
    assert!(r.generate_uuids(1000).is_ok());
    assert_eq!(out_of_range(r.generate_uuids(0)), Parameter::Limit);
    assert_eq!(out_of_range(r.generate_uuids(1001)), Parameter::Limit);
}

#[test]
fn blobs_are_checked() {
    let r = Random::new("SECRET-REDACTED");
    assert!(r.generate_blobs(1, 8).is_ok());
    assert!(r.generate_blobs(100, 1_048_576).is_ok());
    assert_eq!(out_of_range(r.generate_blobs(0, 8)), Parameter::Limit);
    assert_eq!(out_of_range(r.generate_blobs(101, 8)), Parameter::Limit);
    assert_eq!(out_of_range(r.generate_blobs(1, 0)), Parameter::Size);
    assert_eq!(out_of_range(r.generate_blobs(1, 12)), Parameter::Size);
    assert_eq!(out_of_range(r.generate_blobs(1, 1_048_584)), Parameter::Size);
}

#[test]
fn an_untouched_integers_builder_is_the_default_call() {
    let r = Random::new("SECRET-REDACTED");
    let built = r.request_integers().collect().unwrap();
    let direct = r.generate_integers(0, 100, 10, true).unwrap();
    assert_eq!(built.to_body().unwrap(), direct.to_body().unwrap());
    assert_eq!(
        built.to_body().unwrap(),
        r#"{"id":1,"jsonrpc":"2.0","method":"generateIntegers","params":{"apiKey":"SECRET-REDACTED","max":100,"min":0,"n":10,"replacement":true}}"#
    );
}

#[test]
fn the_setters_of_a_builder_change_one_parameter_each() {
    let r = Random::new("SECRET-REDACTED");
    let built = r.request_integers().min(-3).max(9).limit(5).replacement(false).collect().unwrap();
    assert_eq!(built.params.min, -3);
    assert_eq!(built.params.max, 9);
    assert_eq!(built.params.limit, 5);
    assert_eq!(built.params.replacement, false);
    assert_eq!(out_of_range(r.request_integers().limit(0).collect()), Parameter::Limit);
}

#[test]
fn the_other_builders_start_with_their_defaults() {
    let r = Random::new("SECRET-REDACTED");
    let fractions = r.request_decimal_fractions().collect().unwrap();
    assert_eq!((fractions.params.limit, fractions.params.decimal_places), (10, 4));
    let fractions = r.request_decimal_fractions().limit(5).decimal_places(7).collect().unwrap();
    assert_eq!((fractions.params.limit, fractions.params.decimal_places), (5, 7));

    // a request for gaussians starts with no significant digits: it must be given some
    assert_eq!(out_of_range(r.request_gaussians().collect()), Parameter::SignificantDigits);
    let gaussians = r
        .request_gaussians()
        .limit(3)
        .mean(5)
        .standard_deviation(2)
        .significant_digits(6)
        .collect()
        .unwrap();
    assert_eq!(gaussians.params.limit, 3);
    assert_eq!(gaussians.params.mean, 5);
    assert_eq!(gaussians.params.standard_deviation, 2);
    assert_eq!(gaussians.params.significant_digits, 6);

    // a request for strings starts with length 0: it must be given a length
    assert_eq!(out_of_range(r.request_strings().collect()), Parameter::Length);
    let strings = r.request_strings().length(8).collect().unwrap();
    assert_eq!(strings.params.limit, 10);
    assert_eq!(strings.params.characters, "0123456789abcdef");
    let strings = r
        .request_strings()
        .limit(2)
        .length(8)
        .characters(AllowedCharacters::from_chars("zyx"))
        .collect()
        .unwrap();
    assert_eq!(strings.params.limit, 2);
    assert_eq!(strings.params.characters, "xyz");

    let uuids = r.request_uuids().collect().unwrap();
    assert_eq!(uuids.params.limit, 10);
    assert_eq!(r.request_uuids().limit(7).collect().unwrap().params.limit, 7);

    let blobs = r.request_blobs().collect().unwrap();
    assert_eq!((blobs.params.limit, blobs.params.size), (10, 128));
    let blobs = r.request_blobs().limit(4).size(64).collect().unwrap();
    assert_eq!((blobs.params.limit, blobs.params.size), (4, 64));
}

fn assert_sync_and_send<T: Sync + Send>() {}

#[test]
fn test_sync_and_send() {
    assert_sync_and_send::<Random>();
}
