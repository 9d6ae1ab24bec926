use randomorg::rand::{bytes, first_integer, long_word, parse_byte, word, FallibleRandom, Source};
use randomorg::{
    DecodeError, Error, GenerateBlobsResult, GenerateIntegersResult, Parameter, Random, RandomData,
    RandomResult, RequestId, Response, Timestamp,
};

fn reply<T>(data: Vec<T>) -> Response<RandomResult<T>> {
    let completion_time =
        Timestamp { year: 2011, month: 10, day: 10, hour: 13, minute: 19, second: 12, nanosecond: 0 };
    Response {
        json_rpc: "2.0".to_owned(),
        result: RandomResult {
            random: RandomData { data, completion_time },
            bits_used: 8,
            bits_left: 100,
            requests_left: 10,
            advisory_delay: 0,
        },
        id: RequestId(1),
    }
}

#[test]
fn an_integer_is_read_as_its_bit_pattern() {
    assert_eq!(word(0), 0);
    assert_eq!(word(5), 5);
    assert_eq!(word(-1), u32::MAX);
    assert_eq!(word(i32::MIN), 0x8000_0000);
    assert_eq!(word(i32::MAX), 0x7fff_ffff);
    assert_eq!(word(-1_000_000_000), (-1_000_000_000i32) as u32);
    assert_eq!(long_word(0), 0);
    assert_eq!(long_word(5), 5);
    assert_eq!(long_word(-1), u64::MAX);
    assert_eq!(long_word(i32::MIN), 0xffff_ffff_8000_0000);
    assert_eq!(long_word(i32::MAX), 0x7fff_ffff);
    assert_eq!(long_word(-1_000_000_000), (-1_000_000_000i32) as u64);
}

#[test]
fn a_byte_is_read_from_decimal_digits() {
    assert_eq!(parse_byte("0"), Some(0));
    assert_eq!(parse_byte("7"), Some(7));
    assert_eq!(parse_byte("255"), Some(255));
    assert_eq!(parse_byte("+255"), Some(255));
    assert_eq!(parse_byte("000255"), Some(255));
    assert_eq!(parse_byte("256"), None);
    assert_eq!(parse_byte("2560"), None);
    assert_eq!(parse_byte("99999999999999999999999"), None);
    assert_eq!(parse_byte(""), None);
    assert_eq!(parse_byte("+"), None);
    assert_eq!(parse_byte("-1"), None);
    assert_eq!(parse_byte("++1"), None);
    assert_eq!(parse_byte("1+"), None);
    assert_eq!(parse_byte(" 1"), None);
    assert_eq!(parse_byte("1 "), None);
    assert_eq!(parse_byte("12a"), None);
    assert_eq!(parse_byte("qg=="), None);
    assert_eq!(parse_byte("٣"), None);
    for n in 0..=255u8 {
        assert_eq!(parse_byte(&n.to_string()), n.to_string().parse::<u8>().ok());
    }
    for text in ["256", "+0", "-0", "+", "", "0x10", "1_0", "300"] {
        assert_eq!(parse_byte(text), text.parse::<u8>().ok(), "{}", text);
    }
}

#[test]
fn the_call_for_a_number_draws_one_integer_from_the_widest_range() {
    let r = Random::new("SECRET-REDACTED");
    let request = r.rand_next_i32().unwrap();
    assert_eq!(request.params.min, -1_000_000_000);
    assert_eq!(request.params.max, 1_000_000_000);
    assert_eq!(request.params.limit, 1);
    assert_eq!(request.params.replacement, true);
}

#[test]
fn the_call_for_bytes_draws_blobs_of_eight_bits() {
    let r = Random::new("SECRET-REDACTED");
    let request = r.try_fill_bytes(16).unwrap();
    assert_eq!(request.params.limit, 16);
    assert_eq!(request.params.size, 8);
    assert!(r.try_fill_bytes(1).is_ok());
    assert!(r.try_fill_bytes(100).is_ok());
    for len in [0usize, 101, 65535, 65536, 65537 + 16] {
        match r.try_fill_bytes(len) {
            Err(Error::InvalidParameter(Parameter::Limit)) => {}
            other => panic!("another outcome for {}: {:?}", len, other),
        }
    }
}

#[test]
fn the_first_integer_of_a_reply_is_the_number() {
    let found: Response<GenerateIntegersResult> = reply(vec![-3, 9]);
    assert_eq!(first_integer(&found).unwrap(), -3);
    let empty: Response<GenerateIntegersResult> = reply(vec![]);
    match first_integer(&empty) {
        Err(Error::Json(DecodeError::Missing(name))) => assert_eq!(name, "data"),
        other => panic!("another outcome: {:?}", other),
    }
}

#[test]
fn the_bytes_of_a_reply_are_its_first_items() {
    let found: Response<GenerateBlobsResult> =
        reply(vec!["1".to_owned(), "+20".to_owned(), "255".to_owned()]);
    assert_eq!(bytes(&found, 3).unwrap(), vec![1, 20, 255]);
    assert_eq!(bytes(&found, 2).unwrap(), vec![1, 20]);
    assert_eq!(bytes(&found, 0).unwrap(), Vec::<u8>::new());
    for len in [4usize, 100] {
        match bytes(&found, len) {
            Err(Error::Json(DecodeError::Invalid(name))) => assert_eq!(name, "data"),
            other => panic!("another outcome: {:?}", other),
        }
    }
    let encoded: Response<GenerateBlobsResult> = reply(vec!["7".to_owned(), "qg==".to_owned()]);
    assert_eq!(bytes(&encoded, 1).unwrap(), vec![7]);
    match bytes(&encoded, 2) {
        Err(Error::Json(DecodeError::Invalid(name))) => assert_eq!(name, "data"),
        other => panic!("another outcome: {:?}", other),
    }
}

#[test]
fn any_failure_of_the_service_asks_the_fallback() {
    match FallibleRandom::<u8>::next_u32(Ok(-1)) {
        Source::Service(n) => assert_eq!(n, u32::MAX),
        Source::Fallback => panic!("the fallback was asked"),
    }
    match FallibleRandom::<u8>::next_u64(Ok(-2)) {
        Source::Service(n) => assert_eq!(n, u64::MAX - 1),
        Source::Fallback => panic!("the fallback was asked"),
    }
    match FallibleRandom::<u8>::settle(Ok(vec![1u8, 2])) {
        Source::Service(found) => assert_eq!(found, vec![1, 2]),
        Source::Fallback => panic!("the fallback was asked"),
    }
    let failures = || {
        vec![
            Error::Transport("timeout".to_owned()),
            Error::Encode("no".to_owned()),
            Error::Json(DecodeError::Missing("data".to_owned())),
            Error::from_response(503, "busy".to_owned()),
            Error::from_response(
                402,
                r#"{"error":{"code":402,"message":"The API key has no requests left"}}"#.to_owned(),
            ),
            Error::InvalidParameter(Parameter::Limit),
        ]
    };
    for e in failures() {
        assert!(matches!(FallibleRandom::<u8>::next_u32(Err(e)), Source::Fallback));
    }
    for e in failures() {
        assert!(matches!(FallibleRandom::<u8>::next_u64(Err(e)), Source::Fallback));
    }
    for e in failures() {
        assert!(matches!(FallibleRandom::<u8>::settle::<Vec<u8>>(Err(e)), Source::Fallback));
    }
    let both = FallibleRandom { fallback: 7u8, random: Random::new("SECRET-REDACTED") };
    assert_eq!(both.fallback, 7);
    assert!(both.random.rand_next_i32().is_ok());
}

#[test]
fn the_items_of_a_reply_can_be_had_alone() {
    let found: Response<GenerateIntegersResult> = reply(vec![-3, 9, 9]);
    assert_eq!(Vec::<i32>::from(found), vec![-3, 9, 9]);
    let found: Response<GenerateBlobsResult> = reply(vec!["qg==".to_owned()]);
    let items: Vec<String> = found.into();
    assert_eq!(items, vec!["qg=="]);
}
