use nodex_api::status::NapiStatus;
use nodex_api::{napi_version_guard, NAPI_VERSION};

#[test]
fn status_codes_round_trip() {
    for code in 0u32..=21 {
        let s = NapiStatus::from_code(code).unwrap();
        assert_eq!(s.code(), code);
    }
    assert_eq!(NapiStatus::from_code(22), None);
    assert_eq!(NapiStatus::from_code(u32::MAX), None);
    assert_eq!(NapiStatus::from_code(12), Some(NapiStatus::EscapeCalledTwice));
    assert_eq!(NapiStatus::Closing.code(), 16);
}

#[test]
fn status_into_result() {
    assert_eq!(NapiStatus::NapiOk.into_result(), Ok(()));
    assert_eq!(NapiStatus::QueueFull.into_result(), Err(NapiStatus::QueueFull));
}

#[test]
fn status_messages() {
    assert_eq!(NapiStatus::StringExpected.message(), "string expected");
    assert_eq!(NapiStatus::EscapeCalledTwice.message(), "escape called twice");
    assert_eq!(NapiStatus::NapiOk.message(), "napi ok");
}

#[test]
fn version_guard() {
    assert_eq!(napi_version_guard(), NAPI_VERSION);
    assert_eq!(NAPI_VERSION, 8);
}
