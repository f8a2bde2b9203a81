use nodex_api::host::{NapiEnv, NapiHost};
use nodex_api::scope::{NapiEscapableHandleScope, NapiHandleScope};
use nodex_api::status::NapiStatus;
use nodex_api::value::{JsNumber, ValueKind};

fn setup() -> (NapiEnv, NapiHost) {
    let env = NapiEnv::from_raw(7);
    (env, NapiHost::new(env))
}

#[test]
fn handle_is_rejected_after_its_scope_closes() {
    let (env, mut host) = setup();
    let mut scope = NapiHandleScope::open(env, &mut host).unwrap();
    let n = JsNumber::int32(env, &mut host, 42).unwrap();
    assert_eq!(n.get_value_int32(&host), Ok(42));
    scope.close(&mut host).unwrap();
    assert_eq!(n.get_value_int32(&host), Err(NapiStatus::InvalidArg));
    assert_eq!(n.0.check(&host, ValueKind::Number), Err(NapiStatus::InvalidArg));
    // a later scope does not bring the handle back
    let _later = NapiHandleScope::open(env, &mut host).unwrap();
    assert_eq!(n.get_value_int32(&host), Err(NapiStatus::InvalidArg));
}

#[test]
fn handle_of_outer_scope_survives_inner_close() {
    let (env, mut host) = setup();
    let outer = JsNumber::int32(env, &mut host, 1).unwrap();
    let mut inner = NapiHandleScope::open(env, &mut host).unwrap();
    let _x = JsNumber::int32(env, &mut host, 2).unwrap();
    inner.close(&mut host).unwrap();
    assert_eq!(outer.get_value_int32(&host), Ok(1));
}

#[test]
fn closing_out_of_order_is_a_mismatch() {
    let (env, mut host) = setup();
    let mut a = NapiHandleScope::open(env, &mut host).unwrap();
    let mut b = NapiHandleScope::open(env, &mut host).unwrap();
    assert_eq!(a.close(&mut host), Err(NapiStatus::HandleScopeMismatch));
    assert_eq!(b.close(&mut host), Ok(()));
    assert_eq!(a.close(&mut host), Ok(()));
    // closing again: no such innermost scope
    assert_eq!(a.close(&mut host), Err(NapiStatus::HandleScopeMismatch));
}

#[test]
fn escape_succeeds_once() {
    let (env, mut host) = setup();
    let mut outer = NapiHandleScope::open(env, &mut host).unwrap();
    let mut esc = NapiEscapableHandleScope::open(env, &mut host).unwrap();
    let n = JsNumber::int32(env, &mut host, 5).unwrap();
    let m = JsNumber::int32(env, &mut host, 6).unwrap();
    let escaped = esc.escape(&mut host, n.0).unwrap();
    assert_eq!(esc.escape(&mut host, m.0), Err(NapiStatus::EscapeCalledTwice));
    esc.close(&mut host).unwrap();
    assert_eq!(JsNumber(escaped).get_value_int32(&host), Ok(5));
    assert_eq!(n.get_value_int32(&host), Err(NapiStatus::InvalidArg));
    outer.close(&mut host).unwrap();
    assert_eq!(JsNumber(escaped).get_value_int32(&host), Err(NapiStatus::InvalidArg));
}

#[test]
fn escape_from_closed_scope_is_invalid() {
    let (env, mut host) = setup();
    let mut esc = NapiEscapableHandleScope::open(env, &mut host).unwrap();
    let n = JsNumber::int32(env, &mut host, 5).unwrap();
    esc.close(&mut host).unwrap();
    assert_eq!(esc.escape(&mut host, n.0), Err(NapiStatus::InvalidArg));
}

#[test]
fn scope_runs_task_and_closes() {
    let (env, mut host) = setup();
    let r = env.scope(&mut host, |s: NapiHandleScope| s.raw()).unwrap();
    assert_eq!(r, 1);
    let r2 = env.escapable_scope(&mut host, |s: NapiEscapableHandleScope| s.raw()).unwrap();
    assert_eq!(r2, 2);
    let mut root_close = NapiHandleScope { env, id: 0 };
    assert_eq!(root_close.close(&mut host), Err(NapiStatus::HandleScopeMismatch));
}

#[test]
fn handles_of_another_environment_are_refused() {
    let (env, mut host) = setup();
    let mut esc = NapiEscapableHandleScope::open(env, &mut host).unwrap();
    let n = JsNumber::int32(env, &mut host, 5).unwrap();
    let foreign = JsNumber(nodex_api::host::JsValue { env: NapiEnv::from_raw(99), raw: n.0.raw });
    assert_eq!(foreign.get_value_int32(&host), Err(NapiStatus::InvalidArg));
    assert_eq!(esc.escape(&mut host, foreign.0), Err(NapiStatus::InvalidArg));
    let escaped = esc.escape(&mut host, n.0).unwrap();
    assert_eq!(escaped.env(), n.0.env());
}
