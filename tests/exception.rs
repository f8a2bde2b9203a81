use nodex_api::exception::contains_nul;
use nodex_api::host::{ErrorKind, NapiEnv, NapiHost};
use nodex_api::status::NapiStatus;
use nodex_api::value::JsError;

fn setup() -> (NapiEnv, NapiHost) {
    let env = NapiEnv::from_raw(11);
    (env, NapiHost::new(env))
}

#[test]
fn throwing_keeps_the_pending_exception() {
    let (env, mut host) = setup();
    assert_eq!(env.is_exception_pending(&host), Ok(false));
    env.throw_type_error(&mut host, "first").unwrap();
    env.throw_range_error(&mut host, "second").unwrap();
    let e = env.get_and_clear_last_exception(&mut host).unwrap().unwrap();
    assert_eq!(e.message(&mut host).unwrap().get(&host).unwrap(), "first");
    assert_eq!(env.is_exception_pending(&host), Ok(false));
}

#[test]
fn throw_value_while_pending_fails() {
    let (env, mut host) = setup();
    let s = env.string(&mut host, "thrown").unwrap();
    assert_eq!(env.throw(&mut host, s.0), Ok(()));
    assert_eq!(env.throw(&mut host, s.0), Err(NapiStatus::PendingException));
}

#[test]
fn messages_with_nul_are_refused() {
    let (env, mut host) = setup();
    assert_eq!(env.throw_error(&mut host, "a\0b"), Err(NapiStatus::StringExpected));
    assert_eq!(env.throw_type_error_code(&mut host, "msg", "c\0"), Err(NapiStatus::StringExpected));
    assert_eq!(env.is_exception_pending(&host), Ok(false));
    assert!(contains_nul("x\0"));
    assert!(!contains_nul("x"));
}

#[test]
fn fatal_exception_replaces_pending() {
    let (env, mut host) = setup();
    env.throw_error(&mut host, "old").unwrap();
    let e = JsError::with_kind(env, &mut host, ErrorKind::TypeError, "new").unwrap();
    env.fatal_exception(&mut host, e).unwrap();
    let got = env.get_and_clear_last_exception(&mut host).unwrap().unwrap();
    assert_eq!(got.message(&mut host).unwrap().get(&host).unwrap(), "new");
    let err = env.error(&mut host, "plain").unwrap();
    assert_eq!(err.0.is_object(&host), Ok(true));
}

#[test]
fn errors_from_string_values() {
    let (env, mut host) = setup();
    let m = env.string(&mut host, "why").unwrap();
    let e = JsError::type_error(env, &mut host, m).unwrap();
    assert_eq!(e.message(&mut host).unwrap().get(&host).unwrap(), "why");
    let r = JsError::range_error(env, &mut host, m).unwrap();
    assert_eq!(r.0.is_object(&host), Ok(true));
    let n = env.int32(&mut host, 1).unwrap();
    assert_eq!(JsError::error(env, &mut host, nodex_api::value::JsString(n.0)).err(), Some(NapiStatus::StringExpected));
    assert_eq!(env.throw_error_code(&mut host, "m", "CODE"), Ok(()));
    assert_eq!(env.throw_range_error_code(&mut host, "m\0", "CODE"), Err(NapiStatus::StringExpected));
    let pending = env.get_and_clear_last_exception(&mut host).unwrap().unwrap();
    assert_eq!(pending.message(&mut host).unwrap().get(&host).unwrap(), "m");
}
