use nodex_api::host::{NapiEnv, NapiHost};
use nodex_api::promise::JsPromise;
use nodex_api::status::NapiStatus;
use nodex_api::value::JsString;
use nodex_api::work::{NapiAsyncWork, WorkPhase};

fn setup() -> (NapiEnv, NapiHost) {
    let env = NapiEnv::from_raw(9);
    (env, NapiHost::new(env))
}

#[test]
fn background_work_increments_state_once() {
    let (env, mut host) = setup();
    let mut w = env.async_work(&mut host, "counter", 0u32).unwrap();
    w.queue().unwrap();
    w.start().unwrap();
    w.execute(|s: u32| s + 1).unwrap();
    let (status, state) = w.complete().unwrap();
    assert_eq!(status, NapiStatus::NapiOk);
    assert_eq!(state, 1);
    assert_eq!(w.current_phase(), WorkPhase::Completed);
    assert_eq!(w.delete(), Ok(()));
}

#[test]
fn queue_twice_fails() {
    let (env, mut host) = setup();
    let mut w = NapiAsyncWork::new(env, &mut host, "w", 5i64).unwrap();
    assert_eq!(w.queue(), Ok(()));
    assert_eq!(w.queue(), Err(NapiStatus::GenericFailure));
    assert_eq!(w.current_phase(), WorkPhase::Queued);
}

#[test]
fn cancel_before_start_completes_cancelled() {
    let (env, mut host) = setup();
    let mut w = NapiAsyncWork::new(env, &mut host, "w", String::from("s")).unwrap();
    w.queue().unwrap();
    assert_eq!(w.cancel(), Ok(()));
    assert_eq!(w.start(), Err(NapiStatus::GenericFailure));
    assert_eq!(w.execute(|s: String| s), Err(NapiStatus::GenericFailure));
    let (status, state) = w.complete().unwrap();
    assert_eq!(status, NapiStatus::Cancelled);
    assert_eq!(state, "s");
    assert_eq!(w.cancel(), Err(NapiStatus::GenericFailure));
}

#[test]
fn cancel_after_start_or_completion_fails() {
    let (env, mut host) = setup();
    let mut w = NapiAsyncWork::new(env, &mut host, "w", 1u8).unwrap();
    assert_eq!(w.cancel(), Err(NapiStatus::GenericFailure));
    w.queue().unwrap();
    w.start().unwrap();
    assert_eq!(w.cancel(), Err(NapiStatus::GenericFailure));
    w.execute(|s: u8| s * 2).unwrap();
    assert_eq!(w.complete(), Ok((NapiStatus::NapiOk, 2)));
    assert_eq!(w.cancel(), Err(NapiStatus::GenericFailure));
    assert_eq!(w.complete(), Err(NapiStatus::GenericFailure));
}

#[test]
fn queued_work_cannot_be_deleted() {
    let (env, mut host) = setup();
    let mut w = NapiAsyncWork::new(env, &mut host, "w", 1u8).unwrap();
    w.queue().unwrap();
    // queued and not completed: nothing is freed
    assert_eq!(w.delete(), Ok(()));
    assert_eq!(w.current_phase(), WorkPhase::Queued);
    w.start().unwrap();
    w.execute(|s: u8| s).unwrap();
    assert_eq!(w.complete(), Ok((NapiStatus::NapiOk, 1)));
    assert_eq!(w.delete(), Ok(()));
    assert_eq!(w.current_phase(), WorkPhase::Deleted);
    let mut fresh = NapiAsyncWork::new(env, &mut host, "v", 1u8).unwrap();
    assert_eq!(fresh.delete(), Ok(()));
    assert_eq!(fresh.current_phase(), WorkPhase::Deleted);
    assert_eq!(fresh.queue(), Err(NapiStatus::GenericFailure));
}

#[test]
fn work_name_is_a_host_string() {
    let (env, mut host) = setup();
    let w = NapiAsyncWork::new(env, &mut host, "named", ()).unwrap();
    assert_eq!(JsString(w.raw()).get(&host).unwrap(), "named");
    assert_eq!(w.env(), env);
}

#[test]
fn promise_settles_once_from_completion() {
    let (env, mut host) = setup();
    let (p, mut w) = JsPromise::spawn(env, &mut host, 0u32).unwrap();
    assert_eq!(p.settlement(&mut host), Ok(None));
    w.start().unwrap();
    w.execute(|s: u32| s + 41).unwrap();
    let (status, state) = w.complete().unwrap();
    assert_eq!(status, NapiStatus::NapiOk);
    let text = format!("answer {}", state + 1);
    let v = env.string(&mut host, &text).unwrap();
    assert_eq!(p.resolve(&mut host, v.0), Ok(()));
    let other = env.string(&mut host, "other").unwrap();
    assert_eq!(p.resolve(&mut host, other.0), Err(NapiStatus::Closing));
    assert_eq!(p.reject(&mut host, other.0), Err(NapiStatus::Closing));
    let (fulfilled, value) = p.settlement(&mut host).unwrap().unwrap();
    assert!(fulfilled);
    assert_eq!(JsString(value).get(&host).unwrap(), "answer 42");
}

#[test]
fn promise_rejects() {
    let (env, mut host) = setup();
    let p = env.promise(&mut host).unwrap();
    assert_eq!(p.value().is_object(&host), Ok(true));
    let e = env.error(&mut host, "bad").unwrap();
    assert_eq!(p.reject(&mut host, e.0), Ok(()));
    let (fulfilled, _) = p.settlement(&mut host).unwrap().unwrap();
    assert!(!fulfilled);
    let missing = JsPromise { value: p.value(), deferred: 99 };
    assert_eq!(missing.state(&host).err(), Some(NapiStatus::InvalidArg));
}
