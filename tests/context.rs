use nodex_api::api::{Env, Value};
use nodex_api::context::NapiAsyncContext;
use nodex_api::host::{NapiEnv, NapiHost};
use nodex_api::status::NapiStatus;
use nodex_api::traits::{FromJsArgs, NapiValueCheck, ToJsArgs};
use nodex_api::value::{JsNumber, JsString};

fn setup() -> (NapiEnv, NapiHost) {
    let env = NapiEnv::from_raw(12);
    (env, NapiHost::new(env))
}

#[test]
fn async_context_scopes() {
    let (env, mut host) = setup();
    let mut ctx = NapiAsyncContext::new(env, &mut host, "ctx").unwrap();
    assert_eq!(ctx.env(), env);
    let mut s = ctx.scope(&mut host).unwrap();
    let mut t = ctx.scope(&mut host).unwrap();
    assert_eq!(s.close(&mut host), Err(NapiStatus::CallbackScopeMismatch));
    assert_eq!(t.close(&mut host), Ok(()));
    assert_eq!(s.close(&mut host), Ok(()));
    assert_eq!(ctx.destroy(), Ok(()));
    assert_eq!(ctx.destroy(), Err(NapiStatus::InvalidArg));
    assert_eq!(ctx.scope(&mut host).err(), Some(NapiStatus::InvalidArg));
    let other = env.context(&mut host, "other").unwrap();
    assert_eq!(JsString(other.raw()).get(&host).unwrap(), "other");
}

#[test]
fn external_memory_is_tracked() {
    let (env, mut host) = setup();
    assert_eq!(env.adjust_external_memory(&mut host, 100), Ok(100));
    assert_eq!(env.adjust_external_memory(&mut host, -30), Ok(70));
    assert_eq!(env.adjust_external_memory(&mut host, i64::MAX), Err(NapiStatus::InvalidArg));
    assert_eq!(env.napi_version(&host), Ok(8));
}

#[test]
fn typed_conversions() {
    let (env, mut host) = setup();
    let s = env.string(&mut host, "s").unwrap();
    let n = env.int32(&mut host, 1).unwrap();
    assert_eq!(s.check(&host), Ok(true));
    assert_eq!(JsString::from_value(n.0).check(&host), Ok(false));
    let args = s.to_js_args();
    assert_eq!(<JsString as FromJsArgs>::len(), 1);
    let back = JsString::from_js_args(&host, &args).unwrap();
    assert_eq!(back, s);
    assert_eq!(JsNumber::from_js_args(&host, &args).err(), Some(NapiStatus::NumberExpected));
    assert_eq!(<() as FromJsArgs>::from_js_args(&host, &().to_js_args()), Ok(()));
    assert_eq!(Env(3).raw(), 3);
    assert_eq!(Value(4).raw(), 4);
}
