use std::cell::Cell;

use nodex_api::callback::{complete_call, register_module, CallbackInfo, JsArgs, NapiCallback};
use nodex_api::host::{JsValue, NapiEnv, NapiHost};
use nodex_api::scope::NapiHandleScope;
use nodex_api::status::NapiStatus;
use nodex_api::value::{JsObject, JsString, ValueKind};

fn setup() -> (NapiEnv, NapiHost) {
    let env = NapiEnv::from_raw(3);
    (env, NapiHost::new(env))
}

fn call_info(env: NapiEnv, callee: JsValue, this: JsValue, args: Vec<JsValue>) -> CallbackInfo {
    CallbackInfo { env, callee, this, args, new_target: None }
}

#[test]
fn non_string_argument_never_reaches_the_closure() {
    let (env, mut host) = setup();
    let invoked = Cell::new(false);
    let mut cb = NapiCallback::new(env, &mut host, vec![ValueKind::String], |_this: JsObject, _args: JsArgs| {
        invoked.set(true);
    })
    .unwrap();
    let this = env.object(&mut host).unwrap();
    let n = env.int32(&mut host, 1).unwrap();
    let info = call_info(env, cb.js_function().0, this.0, vec![n.0]);
    let r = cb.prepare(&host, &info);
    assert_eq!(r.err(), Some(NapiStatus::StringExpected));
    if let Ok(args) = cb.prepare(&host, &info) {
        (cb.closure().unwrap())(this, args);
    }
    assert!(!invoked.get());
}

#[test]
fn string_argument_reaches_the_closure() {
    let (env, mut host) = setup();
    let seen = Cell::new(0usize);
    let mut cb = NapiCallback::new(env, &mut host, vec![ValueKind::String], |_this: JsObject, args: JsArgs| {
        seen.set(args.0.len());
    })
    .unwrap();
    let this = env.object(&mut host).unwrap();
    let s = env.string(&mut host, "hi").unwrap();
    let info = call_info(env, cb.js_function().0, this.0, vec![s.0]);
    let args = cb.prepare(&host, &info).unwrap();
    assert_eq!(JsString(args.0[0]).get(&host).unwrap(), "hi");
    (cb.closure().unwrap())(this, args);
    assert_eq!(seen.get(), 1);
}

#[test]
fn missing_argument_is_invalid() {
    let (env, mut host) = setup();
    let mut cb = NapiCallback::new(env, &mut host, vec![ValueKind::Number, ValueKind::Number], 0u8).unwrap();
    let this = env.object(&mut host).unwrap();
    let n = env.int32(&mut host, 1).unwrap();
    let info = call_info(env, cb.js_function().0, this.0, vec![n.0]);
    assert_eq!(cb.prepare(&host, &info).err(), Some(NapiStatus::InvalidArg));
}

#[test]
fn first_bad_argument_decides_the_error() {
    let (env, mut host) = setup();
    let s = env.string(&mut host, "s").unwrap();
    let n = env.int32(&mut host, 1).unwrap();
    let args = vec![n.0, s.0];
    let kinds = vec![ValueKind::Boolean, ValueKind::Number];
    assert_eq!(JsArgs::from_js_args(&host, &args, &kinds).err(), Some(NapiStatus::BooleanExpected));
    let kinds = vec![ValueKind::Number, ValueKind::Number];
    assert_eq!(JsArgs::from_js_args(&host, &args, &kinds).err(), Some(NapiStatus::NumberExpected));
    let kinds = vec![ValueKind::Number];
    let ok = JsArgs::from_js_args(&host, &args, &kinds).unwrap();
    assert_eq!(ok.0, vec![n.0]);
}

#[test]
fn finalizer_fires_once_however_often_the_trampoline_runs() {
    let (env, mut host) = setup();
    let mut scope = NapiHandleScope::open(env, &mut host).unwrap();
    let mut cb = NapiCallback::new(env, &mut host, vec![], 7u32).unwrap();
    let f = cb.js_function();
    let this = env.object(&mut host).unwrap();
    for _ in 0..5 {
        let info = call_info(env, f.0, this.0, vec![]);
        assert!(cb.prepare(&host, &info).is_ok());
        assert_eq!(cb.closure(), Some(&7u32));
    }
    let slot = host.slot(f.0).unwrap();
    // the function is still reachable through the open scope
    assert_eq!(host.collect(slot).err(), Some(NapiStatus::GenericFailure));
    assert!(!cb.finalize(&host));
    scope.close(&mut host).unwrap();
    let fired = host.collect(slot).unwrap();
    assert_eq!(fired, vec![cb.finalizer()]);
    assert!(host.collect(slot).is_err());
    assert!(cb.finalize(&host));
    assert!(!cb.finalize(&host));
    assert_eq!(cb.closure(), None);
    let info = call_info(env, f.0, this.0, vec![]);
    assert_eq!(cb.prepare(&host, &info).err(), Some(NapiStatus::GenericFailure));
}

#[test]
fn closure_outcome_becomes_the_returned_handle() {
    let (env, mut host) = setup();
    let s = env.string(&mut host, "done").unwrap();
    let r = complete_call(&mut host, Ok(s.0));
    assert_eq!(r, s.0);
    assert_eq!(env.is_exception_pending(&host), Ok(false));
    let r = complete_call(&mut host, Err(NapiStatus::NumberExpected));
    assert_eq!(r.check(&host, ValueKind::Undefined), Ok(true));
    assert_eq!(env.is_exception_pending(&host), Ok(true));
    let first = env.get_and_clear_last_exception(&mut host).unwrap().unwrap();
    assert_eq!(first.0.kind(&host), Ok(nodex_api::kinds::NapiValuetype::Object));
}

#[test]
fn pending_exception_is_kept_at_the_boundary() {
    let (env, mut host) = setup();
    env.throw_error(&mut host, "first").unwrap();
    let _ = complete_call(&mut host, Err(NapiStatus::GenericFailure));
    let e = env.get_and_clear_last_exception(&mut host).unwrap().unwrap();
    let msg = e.message(&mut host).unwrap();
    assert_eq!(msg.get(&host).unwrap(), "first");
    assert_eq!(env.get_and_clear_last_exception(&mut host).unwrap(), None);
}

#[test]
fn callback_info_accessors() {
    let (env, mut host) = setup();
    let o = env.object(&mut host).unwrap();
    let info = CallbackInfo { env, callee: o.0, this: o.0, args: vec![], new_target: Some(o.0) };
    assert_eq!(info.env(), env);
    assert_eq!(info.raw(), o.0);
    assert_eq!(info.get_new_target(), Ok(Some(JsObject(o.0))));
    let plain = call_info(env, o.0, o.0, vec![]);
    assert_eq!(plain.get_new_target(), Ok(None));
}

#[test]
fn invoke_calls_the_closure_only_after_marshaling() {
    let (env, mut host) = setup();
    let calls = Cell::new(0u32);
    let mut cb = NapiCallback::new(env, &mut host, vec![ValueKind::String], |_this: JsObject, args: JsArgs| {
        calls.set(calls.get() + 1);
        Ok(args.0[0])
    })
    .unwrap();
    let this = env.object(&mut host).unwrap();
    let n = env.int32(&mut host, 1).unwrap();
    let bad = call_info(env, cb.js_function().0, this.0, vec![n.0]);
    let r = cb.invoke(&mut host, &bad);
    assert_eq!(calls.get(), 0);
    assert_eq!(r.check(&host, ValueKind::Undefined), Ok(true));
    let e = env.get_and_clear_last_exception(&mut host).unwrap().unwrap();
    assert_eq!(e.message(&mut host).unwrap().get(&host).unwrap(), "string expected");
    let s = env.string(&mut host, "ok").unwrap();
    let good = call_info(env, cb.js_function().0, this.0, vec![s.0]);
    let r = cb.invoke(&mut host, &good);
    assert_eq!(calls.get(), 1);
    assert_eq!(JsString(r).get(&host).unwrap(), "ok");
    assert_eq!(env.is_exception_pending(&host), Ok(false));
}

#[test]
fn module_entry_outcome() {
    let (env, mut host) = setup();
    let exports = env.object(&mut host).unwrap();
    assert_eq!(register_module(&mut host, exports, Ok(())), Some(exports.0));
    assert_eq!(env.is_exception_pending(&host), Ok(false));
    assert_eq!(register_module(&mut host, exports, Err(NapiStatus::GenericFailure)), None);
    let e = env.get_and_clear_last_exception(&mut host).unwrap().unwrap();
    assert_eq!(e.message(&mut host).unwrap().get(&host).unwrap(), "generic failure");
    env.throw_error(&mut host, "first").unwrap();
    assert_eq!(register_module(&mut host, exports, Err(NapiStatus::InvalidArg)), None);
    let e = env.get_and_clear_last_exception(&mut host).unwrap().unwrap();
    assert_eq!(e.message(&mut host).unwrap().get(&host).unwrap(), "first");
}
