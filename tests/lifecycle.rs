use nodex_api::host::{NapiEnv, NapiHost};
use nodex_api::scope::NapiHandleScope;
use nodex_api::status::NapiStatus;

fn setup() -> (NapiEnv, NapiHost) {
    let env = NapiEnv::from_raw(10);
    (env, NapiHost::new(env))
}

#[test]
fn wrap_unwrap_remove() {
    let (env, mut host) = setup();
    let mut o = env.object(&mut host).unwrap();
    assert_eq!(o.unwrap(&host), Ok(None));
    let r = o.wrap(&mut host, 42).unwrap();
    assert_eq!(o.wrap(&mut host, 43).err(), Some(NapiStatus::InvalidArg));
    assert_eq!(o.unwrap(&host), Ok(Some(42)));
    assert_eq!(o.remove_wrap(&mut host), Ok(42));
    assert_eq!(o.unwrap(&host), Ok(None));
    assert_eq!(o.remove_wrap(&mut host), Err(NapiStatus::InvalidArg));
    // the wrap's finalizer is settled: the reference may go
    assert_eq!(r.delete(&mut host), Ok(()));
}

#[test]
fn wrapped_object_finalizer_fires_on_collection() {
    let (env, mut host) = setup();
    let mut scope = NapiHandleScope::open(env, &mut host).unwrap();
    let mut o = env.object(&mut host).unwrap();
    let slot = host.slot(o.0).unwrap();
    let r = o.wrap(&mut host, 1).unwrap();
    assert_eq!(r.delete(&mut host), Err(NapiStatus::GenericFailure));
    scope.close(&mut host).unwrap();
    assert_eq!(host.collect(slot).unwrap().len(), 1);
    assert_eq!(r.delete(&mut host), Ok(()));
}

#[test]
fn instance_data() {
    let (env, mut host) = setup();
    assert_eq!(env.get_instance_data(&host), Ok(None));
    env.set_instance_data(&mut host, 3).unwrap();
    env.set_instance_data(&mut host, 4).unwrap();
    assert_eq!(env.get_instance_data(&host), Ok(Some(4)));
    // the replaced data's finalizer never fires; the last one fires once at exit
    assert_eq!(host.teardown().instance, Some(4));
    assert_eq!(host.teardown().instance, None);
}

#[test]
fn cleanup_hooks_run_last_added_first() {
    let (env, mut host) = setup();
    let _a = env.add_cleanup_hook(&mut host, 1).unwrap();
    let b = env.add_cleanup_hook(&mut host, 2).unwrap();
    let _c = env.add_async_cleanup_hook(&mut host, 3).unwrap();
    let d = env.add_async_cleanup_hook(&mut host, 4).unwrap();
    assert_eq!(b.remove(&mut host), Ok(()));
    assert_eq!(d.remove(&mut host), Ok(()));
    let first = host.teardown();
    assert_eq!(first.hooks, vec![3, 1]);
    assert_eq!(first.instance, None);
    assert_eq!(host.teardown().hooks, Vec::<u64>::new());
}
