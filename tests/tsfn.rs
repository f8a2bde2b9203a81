use nodex_api::callback::NapiCallback;
use nodex_api::host::{NapiEnv, NapiHost};
use nodex_api::kinds::{NapiThreadsafeFunctionCallMode, NapiThreadsafeFunctionReleaseMode};
use nodex_api::status::NapiStatus;
use nodex_api::tsfn::NapiThreadsafeFunction;
use nodex_api::value::JsFunction;

fn setup() -> (NapiEnv, NapiHost, JsFunction) {
    let env = NapiEnv::from_raw(4);
    let mut host = NapiHost::new(env);
    let cb = NapiCallback::new(env, &mut host, vec![], ()).unwrap();
    let f = cb.js_function();
    (env, host, f)
}

#[test]
fn calls_queue_and_dispatch_in_order() {
    let (env, mut host, f) = setup();
    let mut t: NapiThreadsafeFunction<u32> = env.tsfn(&mut host, "t", f, 0).unwrap();
    t.non_blocking(1).unwrap();
    t.blocking(2).unwrap();
    t.call(3, NapiThreadsafeFunctionCallMode::Nonblocking).unwrap();
    assert_eq!(t.dispatch(), Some(1));
    assert_eq!(t.dispatch(), Some(2));
    assert_eq!(t.dispatch(), Some(3));
    assert_eq!(t.dispatch(), None);
}

#[test]
fn full_queue_refuses_calls() {
    let (env, mut host, f) = setup();
    let mut t: NapiThreadsafeFunction<u8> = NapiThreadsafeFunction::new(env, &mut host, "t", f, 1).unwrap();
    t.non_blocking(1).unwrap();
    assert_eq!(t.non_blocking(2), Err(NapiStatus::QueueFull));
    // on the event-loop thread a blocking call would wait on itself
    assert_eq!(t.call_from_loop(2, NapiThreadsafeFunctionCallMode::Blocking), Err(NapiStatus::WouldDeadlock));
    assert_eq!(t.call_from_loop(2, NapiThreadsafeFunctionCallMode::Nonblocking), Err(NapiStatus::QueueFull));
    // the event loop makes room; a blocking call from another thread then goes through
    assert_eq!(t.dispatch(), Some(1));
    assert_eq!(t.blocking(2), Ok(()));
    assert_eq!(t.dispatch(), Some(2));
    assert_eq!(t.call_from_loop(3, NapiThreadsafeFunctionCallMode::Blocking), Ok(()));
}

#[test]
fn released_function_is_closing() {
    let (env, mut host, f) = setup();
    let mut t: NapiThreadsafeFunction<u8> = NapiThreadsafeFunction::new(env, &mut host, "t", f, 0).unwrap();
    t.acquire().unwrap();
    t.non_blocking(1).unwrap();
    t.release().unwrap();
    assert_eq!(t.non_blocking(2), Ok(()));
    t.release().unwrap();
    assert_eq!(t.non_blocking(3), Err(NapiStatus::Closing));
    assert_eq!(t.blocking(3), Err(NapiStatus::Closing));
    assert_eq!(t.acquire(), Err(NapiStatus::Closing));
    assert_eq!(t.release(), Err(NapiStatus::InvalidArg));
    // queued calls still drain, then the finalizer fires once
    assert!(!t.finalize());
    assert_eq!(t.dispatch(), Some(1));
    assert_eq!(t.dispatch(), Some(2));
    assert!(t.finalize());
    assert!(!t.finalize());
}

#[test]
fn aborted_function_drops_queued_calls() {
    let (env, mut host, f) = setup();
    let mut t: NapiThreadsafeFunction<u8> = NapiThreadsafeFunction::new(env, &mut host, "t", f, 0).unwrap();
    t.acquire().unwrap();
    t.non_blocking(1).unwrap();
    t.release_with(NapiThreadsafeFunctionReleaseMode::Abort).unwrap();
    assert_eq!(t.non_blocking(2), Err(NapiStatus::Closing));
    assert_eq!(t.dispatch(), None);
    assert!(t.finalize());
}

#[test]
fn abort_closes_at_once() {
    let (env, mut host, f) = setup();
    let mut t: NapiThreadsafeFunction<u8> = NapiThreadsafeFunction::new(env, &mut host, "t", f, 0).unwrap();
    t.abort().unwrap();
    assert_eq!(t.call(1, NapiThreadsafeFunctionCallMode::Blocking), Err(NapiStatus::Closing));
}

#[test]
fn tsfn_needs_a_function() {
    let (env, mut host, _) = setup();
    let o = env.object(&mut host).unwrap();
    let r: Result<NapiThreadsafeFunction<u8>, NapiStatus> =
        NapiThreadsafeFunction::new(env, &mut host, "t", JsFunction(o.0), 0);
    assert_eq!(r.err(), Some(NapiStatus::FunctionExpected));
}

#[test]
fn refer_and_unref_are_idempotent() {
    let (env, mut host, f) = setup();
    let mut t: NapiThreadsafeFunction<u8> = NapiThreadsafeFunction::new(env, &mut host, "t", f, 0).unwrap();
    assert_eq!(t.unref(), Ok(()));
    assert_eq!(t.unref(), Ok(()));
    assert_eq!(t.refer(), Ok(()));
    assert_eq!(t.refer(), Ok(()));
    assert_eq!(t.env(), env);
    assert!(t.raw().is_string(&host).unwrap());
}
