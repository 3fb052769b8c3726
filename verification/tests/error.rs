use tidb_query_common::error::{evaluate_error_message, storage_error_message, Result};
use tidb_query_common::text::prefixed;
use tidb_query_common::{DeadlineError, Error, ErrorCode, ErrorInner, EvaluateError, StorageError};

fn gbk() -> EvaluateError {
    EvaluateError::InvalidCharacterString { charset: String::from("gbk") }
}

fn storage(message: &'static str) -> StorageError {
    StorageError::from(anyhow::Error::msg(message))
}

fn is_send_and_sync<V: Send + Sync>() -> bool {
    true
}

fn fails_with(failure: EvaluateError) -> Result<i32> {
    Err(Error::from(failure))
}

#[test]
fn storage_error_has_the_storage_class() {
    assert_eq!(Error::from(storage("disk full")).error_code(), ErrorCode::Storage);
    assert_eq!(Error::from(storage("")).error_code(), ErrorCode::Storage);
}

#[test]
fn storage_class_does_not_depend_on_the_failure() {
    let io = std::io::Error::new(std::io::ErrorKind::NotFound, "no such region");
    let from_io = Error::from(StorageError::from(anyhow::Error::new(io)));
    assert_eq!(from_io.error_code(), ErrorCode::Storage);
    let with_context = anyhow::Error::msg("key not found").context("while reading a row");
    assert_eq!(Error::from(StorageError(with_context)).error_code(), ErrorCode::Storage);
    let parse = "x".parse::<i32>().unwrap_err();
    assert_eq!(
        Error::from(StorageError::from(anyhow::Error::new(parse))).error_code(),
        ErrorCode::Storage
    );
}

#[test]
fn storage_failure_that_looks_like_an_evaluation_failure() {
    let error = Error::from(storage("Execution terminated due to exceeding the deadline"));
    assert_eq!(error.error_code(), ErrorCode::Storage);
}

#[test]
fn evaluate_error_keeps_its_code() {
    assert_eq!(
        Error::from(EvaluateError::DeadlineExceeded).error_code(),
        ErrorCode::Evaluate(9007)
    );
    assert_eq!(Error::from(gbk()).error_code(), ErrorCode::Evaluate(1300));
    assert_eq!(
        Error::from(EvaluateError::Other(String::from("x"))).error_code(),
        ErrorCode::Evaluate(10000)
    );
}

#[test]
fn custom_code_reaches_the_boundary() {
    for code in [0, 1, -1, 1105, i32::MIN, i32::MAX] {
        let failure = EvaluateError::Custom { code, msg: String::from("m") };
        assert_eq!(failure.code(), code);
        let direct = Error::from(EvaluateError::Custom { code, msg: String::from("m") });
        assert_eq!(direct.error_code(), ErrorCode::Evaluate(code));
        let generic = Error::from_evaluate(EvaluateError::Custom { code, msg: String::from("m") });
        assert_eq!(generic.error_code(), ErrorCode::Evaluate(code));
    }
}

#[test]
fn generic_conversion_gives_the_code_of_the_failure() {
    let code = gbk().code();
    assert_eq!(Error::from_evaluate(gbk()).error_code(), ErrorCode::Evaluate(code));
    assert_eq!(Error::from_evaluate(gbk()).error_code(), gbk().error_code());
    let other = EvaluateError::Other(String::from("x"));
    assert_eq!(Error::from_evaluate(other).error_code(), ErrorCode::Evaluate(10000));
}

#[test]
fn round_trip_of_an_invalid_character_string() {
    let direct = Error::from(ErrorInner::Evaluate(gbk()));
    assert_eq!(direct.error_code(), ErrorCode::Evaluate(1300));
    let generic = Error::from_evaluate(gbk());
    assert_eq!(generic.error_code(), ErrorCode::Evaluate(1300));
    let boxed = Error::from(Box::new(ErrorInner::Evaluate(gbk())));
    assert_eq!(boxed.error_code(), ErrorCode::Evaluate(1300));
    assert_eq!(direct.error_code(), generic.error_code());
}

#[test]
fn generic_conversion_wraps_as_evaluation() {
    let error = Error::from_evaluate(gbk());
    assert!(matches!(
        &*error.0,
        ErrorInner::Evaluate(EvaluateError::InvalidCharacterString { charset }) if charset == "gbk"
    ));
}

#[test]
fn generic_conversion_of_a_deadline_signal() {
    let error = Error::from_evaluate(DeadlineError);
    assert!(matches!(&*error.0, ErrorInner::Evaluate(EvaluateError::DeadlineExceeded)));
    assert_eq!(error.error_code(), ErrorCode::Evaluate(9007));
}

#[test]
fn generic_conversion_of_a_utf8_error() {
    let bytes: [u8; 1] = [0xff];
    let err = std::str::from_utf8(&bytes).unwrap_err();
    let error = Error::from_evaluate(err);
    assert_eq!(error.error_code(), ErrorCode::Evaluate(10000));
    assert_eq!(
        error.to_string(),
        "Evaluate error: invalid input value: Utf8Error { valid_up_to: 0, error_len: Some(1) }"
    );
}

#[test]
fn generic_conversion_of_a_from_utf8_error() {
    let err = String::from_utf8(vec![0xc3]).unwrap_err();
    let diagnostic = format!("{:?}", err);
    let error = Error::from_evaluate(err);
    assert_eq!(error.error_code(), ErrorCode::Evaluate(10000));
    assert!(error.to_string().contains(&diagnostic));
}

#[test]
fn conversions_wrap_what_they_are_given() {
    assert!(matches!(&*Error::from(storage("s")).0, ErrorInner::Storage(_)));
    assert!(matches!(&*Error::from(gbk()).0, ErrorInner::Evaluate(_)));
    assert!(matches!(&*Error::from(ErrorInner::Storage(storage("s"))).0, ErrorInner::Storage(_)));
    let boxed = Box::new(ErrorInner::Storage(storage("s")));
    assert!(matches!(&*Error::from(boxed).0, ErrorInner::Storage(_)));
    let into: Error = gbk().into();
    assert!(matches!(&*into.0, ErrorInner::Evaluate(_)));
}

#[test]
fn storage_error_keeps_the_failure() {
    let kept = storage("region is unavailable");
    assert_eq!(kept.to_string(), "region is unavailable");
    assert_eq!(kept.0.to_string(), "region is unavailable");
    let parse = "x".parse::<i32>().unwrap_err();
    let expected = parse.to_string();
    let wrapped = StorageError::from(anyhow::Error::new(parse));
    assert_eq!(wrapped.to_string(), expected);
    assert!(wrapped.0.downcast_ref::<std::num::ParseIntError>().is_some());
}

#[test]
fn description_of_a_storage_error() {
    assert_eq!(Error::from(storage("disk full")).to_string(), "Storage error: disk full");
    assert_eq!(ErrorInner::Storage(storage("")).to_string(), "Storage error: ");
}

#[test]
fn description_of_an_evaluation_error() {
    assert_eq!(
        Error::from(gbk()).to_string(),
        "Evaluate error: Invalid gbk character string"
    );
    assert_eq!(
        ErrorInner::Evaluate(EvaluateError::DeadlineExceeded).to_string(),
        "Evaluate error: Execution terminated due to exceeding the deadline"
    );
    let custom = EvaluateError::Custom { code: 1, msg: String::from("overflow") };
    assert_eq!(Error::from(custom).to_string(), "Evaluate error: overflow");
}

#[test]
fn messages_put_the_layer_in_front() {
    assert_eq!(storage_error_message("lost"), "Storage error: lost");
    assert_eq!(evaluate_error_message("lost"), "Evaluate error: lost");
    assert_eq!(storage_error_message(""), "Storage error: ");
    assert_eq!(evaluate_error_message(""), "Evaluate error: ");
}

#[test]
fn prefixed_joins_two_texts() {
    assert_eq!(prefixed("ab", "cd"), "abcd");
    assert_eq!(prefixed("", "cd"), "cd");
    assert_eq!(prefixed("ab", ""), "ab");
}

#[test]
fn error_is_as_large_as_a_pointer() {
    assert_eq!(std::mem::size_of::<Error>(), std::mem::size_of::<usize>());
    let long = Error::from(EvaluateError::Other("x".repeat(1 << 20)));
    let short = Error::from(EvaluateError::DeadlineExceeded);
    let stored = Error::from(storage("disk full"));
    assert_eq!(std::mem::size_of_val(&long), std::mem::size_of_val(&short));
    assert_eq!(std::mem::size_of_val(&stored), std::mem::size_of_val(&short));
    assert_eq!(std::mem::size_of_val(&long), std::mem::size_of::<usize>());
    assert_eq!(long.error_code(), ErrorCode::Evaluate(10000));
}

#[test]
fn errors_can_cross_threads() {
    assert!(is_send_and_sync::<Error>());
    assert!(is_send_and_sync::<ErrorInner>());
    assert!(is_send_and_sync::<EvaluateError>());
    assert!(is_send_and_sync::<StorageError>());
    assert!(is_send_and_sync::<ErrorCode>());
}

#[test]
fn result_carries_the_error() {
    let failed = fails_with(EvaluateError::DeadlineExceeded);
    assert_eq!(failed.unwrap_err().error_code(), ErrorCode::Evaluate(9007));
    let fine: Result<i32> = Ok(3);
    assert_eq!(fine.unwrap(), 3);
}

#[test]
fn error_codes_compare_by_class() {
    assert_eq!(ErrorCode::Storage, ErrorCode::Storage);
    assert_eq!(ErrorCode::Evaluate(1300), ErrorCode::Evaluate(1300));
    assert_ne!(ErrorCode::Evaluate(1300), ErrorCode::Evaluate(9007));
    assert_ne!(ErrorCode::Storage, ErrorCode::Evaluate(0));
    let copy = ErrorCode::Evaluate(5);
    let same = copy;
    assert_eq!(copy, same);
}
