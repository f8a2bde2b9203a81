use nodex_api::buffer::copy_bytes;
use nodex_api::host::{NapiEnv, NapiHost};
use nodex_api::kinds::NapiTypedarrayType;
use nodex_api::status::NapiStatus;
use nodex_api::value::{JsArrayBuffer, JsBuffer, JsDate, JsExternal};

fn setup() -> (NapiEnv, NapiHost) {
    let env = NapiEnv::from_raw(5);
    (env, NapiHost::new(env))
}

#[test]
fn arraybuffer_holds_a_copy_and_detaches_once() {
    let (env, mut host) = setup();
    let mut ab = JsArrayBuffer::new(env, &mut host, &[1, 2, 3]).unwrap();
    assert_eq!(ab.get_arraybuffer_info(&host).unwrap(), vec![1, 2, 3]);
    assert_eq!(ab.is_detached(&host), Ok(false));
    assert_eq!(ab.detach(&mut host), Ok(()));
    assert_eq!(ab.is_detached(&host), Ok(true));
    assert_eq!(ab.get_arraybuffer_info(&host).unwrap(), Vec::<u8>::new());
    assert_eq!(ab.detach(&mut host), Err(NapiStatus::DetachableArraybufferExpected));
}

#[test]
fn views_must_fit() {
    let (env, mut host) = setup();
    let ab = env.arraybuffer(&mut host, &[0u8; 16]).unwrap();
    let dv = ab.view(&mut host, 4, 8).unwrap();
    let (_, offset, length) = dv.info(&host).unwrap();
    assert_eq!((offset, length), (4, 8));
    assert_eq!(ab.view(&mut host, 10, 8).err(), Some(NapiStatus::PendingException));
    assert_eq!(env.is_exception_pending(&host), Ok(true));
    env.get_and_clear_last_exception(&mut host).unwrap();
    let ta = ab.typedarray(&mut host, NapiTypedarrayType::Int32Array, 4, 3).unwrap();
    assert_eq!(ta.0.is_typedarray(&host), Ok(true));
    assert_eq!(ab.typedarray(&mut host, NapiTypedarrayType::Int32Array, 4, 4).err(), Some(NapiStatus::PendingException));
    env.get_and_clear_last_exception(&mut host).unwrap();
    assert_eq!(ab.typedarray(&mut host, NapiTypedarrayType::Int32Array, 2, 1).err(), Some(NapiStatus::PendingException));
    assert_eq!(NapiTypedarrayType::Float64Array.element_size(), 8);
}

#[test]
fn buffers() {
    let (env, mut host) = setup();
    let b = JsBuffer::create(env, &mut host, 4).unwrap();
    assert_eq!(b.get(&host).unwrap(), vec![0, 0, 0, 0]);
    assert_eq!(b.len(&host), Ok(4));
    assert_eq!(b.is_empty(&host), Ok(false));
    let c = env.buffer_copy(&mut host, &[9, 8]).unwrap();
    assert_eq!(c.get(&host).unwrap(), vec![9, 8]);
    let e = env.buffer(&mut host, 0).unwrap();
    assert_eq!(e.is_empty(&host), Ok(true));
    assert_eq!(c.0.is_buffer(&host), Ok(true));
    assert_eq!(copy_bytes(&[5, 6]), vec![5, 6]);
}

#[test]
fn externals_and_dates() {
    let (env, mut host) = setup();
    let (x, _f) = JsExternal::new(env, &mut host, 77).unwrap();
    assert_eq!(x.get(&host), Ok(77));
    assert_eq!(x.0.is_external(&host), Ok(true));
    let (y, _) = env.external(&mut host, 1).unwrap();
    assert_eq!(y.get(&host), Ok(1));
    let d = JsDate::from_millis(env, &mut host, -5).unwrap();
    assert_eq!(d.millis(&host), Ok(-5));
    assert_eq!(d.0.is_date(&host), Ok(true));
    assert_eq!(JsDate(x.0).millis(&host), Err(NapiStatus::DateExpected));
}

#[test]
fn external_buffers_carry_a_finalizer() {
    let (env, mut host) = setup();
    let mut scope = nodex_api::scope::NapiHandleScope::open(env, &mut host).unwrap();
    let (ab, f) = JsExternal::arraybuffer(env, &mut host, &[1, 2]).unwrap();
    let (b, g) = JsExternal::buffer(env, &mut host, &[3]).unwrap();
    assert_eq!(ab.get_arraybuffer_info(&host).unwrap(), vec![1, 2]);
    assert_eq!(b.get(&host).unwrap(), vec![3]);
    let slot = host.slot(ab.0).unwrap();
    scope.close(&mut host).unwrap();
    assert_eq!(host.collect(slot).unwrap(), vec![f]);
    assert!(!host.finalizer_fired(g));
}
