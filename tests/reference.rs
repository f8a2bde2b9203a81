use nodex_api::host::{NapiEnv, NapiHost};
use nodex_api::reference::NapiRef;
use nodex_api::scope::NapiHandleScope;
use nodex_api::status::NapiStatus;
use nodex_api::value::JsString;

fn setup() -> (NapiEnv, NapiHost) {
    let env = NapiEnv::from_raw(6);
    (env, NapiHost::new(env))
}

#[test]
fn reference_counts() {
    let (env, mut host) = setup();
    let s = env.string(&mut host, "kept").unwrap();
    let mut r = NapiRef::new(&mut host, s.0, 1).unwrap();
    assert_eq!(r.inc(&mut host), Ok(2));
    assert_eq!(r.dec(&mut host), Ok(1));
    assert_eq!(r.dec(&mut host), Ok(0));
    assert_eq!(r.dec(&mut host), Err(NapiStatus::GenericFailure));
    r.delete(&mut host).unwrap();
    assert_eq!(r.inc(&mut host), Err(NapiStatus::InvalidArg));
    assert_eq!(r.delete(&mut host), Err(NapiStatus::InvalidArg));
}

#[test]
fn strong_reference_outlives_its_scope() {
    let (env, mut host) = setup();
    let mut scope = NapiHandleScope::open(env, &mut host).unwrap();
    let s = env.string(&mut host, "persistent").unwrap();
    let slot = host.slot(s.0).unwrap();
    let r = NapiRef::new(&mut host, s.0, 1).unwrap();
    scope.close(&mut host).unwrap();
    assert_eq!(host.collect(slot).err(), Some(NapiStatus::GenericFailure));
    let v = r.deref(&mut host).unwrap().unwrap();
    assert_eq!(JsString(v).get(&host).unwrap(), "persistent");
}

#[test]
fn weak_reference_sees_collection() {
    let (env, mut host) = setup();
    let mut scope = NapiHandleScope::open(env, &mut host).unwrap();
    let s = env.string(&mut host, "weak").unwrap();
    let slot = host.slot(s.0).unwrap();
    let (r, f) = NapiRef::finalizer(&mut host, s.0).unwrap();
    // the reference came with a finalizer: it cannot be deleted before that fires
    assert_eq!(r.delete(&mut host), Err(NapiStatus::GenericFailure));
    scope.close(&mut host).unwrap();
    assert_eq!(host.collect(slot).unwrap(), vec![f]);
    assert!(host.finalizer_fired(f));
    assert_eq!(r.deref(&mut host), Ok(None));
    assert_eq!(r.delete(&mut host), Ok(()));
    assert_eq!(r.env(), env);
}

#[test]
fn reference_to_dead_handle_is_refused() {
    let (env, mut host) = setup();
    let mut scope = NapiHandleScope::open(env, &mut host).unwrap();
    let s = env.string(&mut host, "gone").unwrap();
    scope.close(&mut host).unwrap();
    assert_eq!(NapiRef::new(&mut host, s.0, 1).err(), Some(NapiStatus::InvalidArg));
}
