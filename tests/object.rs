use nodex_api::host::{NapiEnv, NapiHost};
use nodex_api::status::NapiStatus;
use nodex_api::value::{JsArray, JsNumber, JsObject, JsString, ValueKind};

fn setup() -> (NapiEnv, NapiHost) {
    let env = NapiEnv::from_raw(2);
    (env, NapiHost::new(env))
}

#[test]
fn elements_set_get_has_delete() {
    let (env, mut host) = setup();
    let mut o = JsObject::new(env, &mut host).unwrap();
    let v = env.int32(&mut host, 10).unwrap();
    assert_eq!(o.has_element(&host, 0), Ok(false));
    let missing = o.get_element(&mut host, 0).unwrap();
    assert_eq!(missing.check(&host, ValueKind::Undefined), Ok(true));
    o.set_element(&mut host, 0, v.0).unwrap();
    assert_eq!(o.has_element(&host, 0), Ok(true));
    let got = o.get_element(&mut host, 0).unwrap();
    assert_eq!(JsNumber(got).get_value_int32(&host), Ok(10));
    assert_eq!(o.delete_element(&mut host, 0), Ok(true));
    assert_eq!(o.has_element(&host, 0), Ok(false));
}

#[test]
fn named_properties() {
    let (env, mut host) = setup();
    let mut o = env.object(&mut host).unwrap();
    let v = env.string(&mut host, "val").unwrap();
    assert_eq!(o.has_named_property(&host, "k"), Ok(false));
    o.set_named_property(&mut host, "k", v.0).unwrap();
    assert_eq!(o.has_named_property(&host, "k"), Ok(true));
    let got = o.get_named_property(&mut host, "k").unwrap();
    assert_eq!(JsString(got).get(&host).unwrap(), "val");
    assert_eq!(o.get_named_property(&mut host, "a\0b").err(), Some(NapiStatus::StringExpected));
    assert_eq!(o.has_named_property(&host, "a\0b"), Err(NapiStatus::StringExpected));
    // a later write replaces the value
    let w = env.string(&mut host, "new").unwrap();
    o.set_named_property(&mut host, "k", w.0).unwrap();
    let got = o.get_named_property(&mut host, "k").unwrap();
    assert_eq!(JsString(got).get(&host).unwrap(), "new");
}

#[test]
fn frozen_and_sealed_objects() {
    let (env, mut host) = setup();
    let mut o = env.object(&mut host).unwrap();
    let a = env.int32(&mut host, 1).unwrap();
    let b = env.int32(&mut host, 2).unwrap();
    o.set_element(&mut host, 0, a.0).unwrap();
    o.seal(&mut host).unwrap();
    // sealed: existing element may change, no new one, no deletion
    o.set_element(&mut host, 0, b.0).unwrap();
    o.set_element(&mut host, 1, b.0).unwrap();
    assert_eq!(o.has_element(&host, 1), Ok(false));
    assert_eq!(o.delete_element(&mut host, 0), Ok(false));
    let got = o.get_element(&mut host, 0).unwrap();
    assert_eq!(JsNumber(got).get_value_int32(&host), Ok(2));
    o.freeze(&mut host).unwrap();
    o.set_element(&mut host, 0, a.0).unwrap();
    let got = o.get_element(&mut host, 0).unwrap();
    assert_eq!(JsNumber(got).get_value_int32(&host), Ok(2));
    assert_eq!(o.delete_element(&mut host, 5), Ok(true));
}

#[test]
fn arrays_grow_with_writes() {
    let (env, mut host) = setup();
    let a = JsArray::empty(env, &mut host).unwrap();
    assert_eq!(a.len(&host), Ok(0));
    assert_eq!(a.is_empty(&host), Ok(true));
    let v = env.int32(&mut host, 3).unwrap();
    a.set(&mut host, 4, v.0).unwrap();
    assert_eq!(a.len(&host), Ok(5));
    assert_eq!(a.is_empty(&host), Ok(false));
    let got = a.get(&mut host, 4).unwrap();
    assert_eq!(JsNumber(got).get_value_int32(&host), Ok(3));
    let b = JsArray::new(env, &mut host, 10).unwrap();
    assert_eq!(b.len(&host), Ok(10));
    b.set(&mut host, 2, v.0).unwrap();
    assert_eq!(b.len(&host), Ok(10));
    assert_eq!(JsArray::new(env, &mut host, (u32::MAX as usize) + 1).err(), Some(NapiStatus::InvalidArg));
}

#[test]
fn property_access_needs_an_object() {
    let (env, mut host) = setup();
    let n = env.int32(&mut host, 1).unwrap();
    let mut o = JsObject(n.0);
    assert_eq!(o.has_element(&host, 0), Err(NapiStatus::ObjectExpected));
    assert_eq!(o.get_element(&mut host, 0).err(), Some(NapiStatus::ObjectExpected));
    assert_eq!(o.freeze(&mut host), Err(NapiStatus::ObjectExpected));
    assert_eq!(JsArray(n.0).len(&host), Err(NapiStatus::ArrayExpected));
}

#[test]
fn properties_keyed_by_values() {
    let (env, mut host) = setup();
    let mut o = env.object(&mut host).unwrap();
    let k = env.string(&mut host, "k").unwrap();
    let sym = env.symbol(&mut host).unwrap();
    let v = env.int32(&mut host, 4).unwrap();
    o.set_property(&mut host, k.0, v.0).unwrap();
    o.set_property(&mut host, sym.0, k.0).unwrap();
    assert_eq!(o.has_property(&host, k.0), Ok(true));
    assert_eq!(o.has_own_property(&host, sym.0), Ok(true));
    assert_eq!(o.has_named_property(&host, "k"), Ok(true));
    let got = o.get_property(&mut host, k.0).unwrap();
    assert_eq!(JsNumber(got).get_value_int32(&host), Ok(4));
    assert_eq!(o.delete_property(&mut host, k.0), Ok(true));
    assert_eq!(o.has_property(&host, k.0), Ok(false));
    assert_eq!(o.has_property(&host, v.0), Err(NapiStatus::NameExpected));
    let f = env.func(&mut host, vec![], 0u8).unwrap();
    let mut fo = JsObject(f.js_function().0);
    fo.set_named_property(&mut host, "tag", v.0).unwrap();
    assert_eq!(fo.has_named_property(&host, "tag"), Ok(true));
}

#[test]
fn property_names_in_first_write_order() {
    let (env, mut host) = setup();
    let mut o = env.object(&mut host).unwrap();
    let v = env.int32(&mut host, 1).unwrap();
    o.set_named_property(&mut host, "b", v.0).unwrap();
    o.set_named_property(&mut host, "a", v.0).unwrap();
    o.set_named_property(&mut host, "b", v.0).unwrap();
    o.set_named_property(&mut host, "gone", v.0).unwrap();
    o.set_element(&mut host, 0, v.0).unwrap();
    let k = env.string(&mut host, "gone").unwrap();
    o.delete_property(&mut host, k.0).unwrap();
    let names = o.get_property_names(&mut host).unwrap();
    assert_eq!(names.len(&host), Ok(2));
    let first = names.get(&mut host, 0).unwrap();
    let second = names.get(&mut host, 1).unwrap();
    assert_eq!(JsString(first).get(&host).unwrap(), "b");
    assert_eq!(JsString(second).get(&host).unwrap(), "a");
    let none = o
        .get_all_property_names(
            &mut host,
            nodex_api::kinds::NapiKeyCollectionMode::KeyOwnOnly,
            nodex_api::kinds::NapiKeyFilter::SkipStrings,
            nodex_api::kinds::NapiKeyConversion::KeepNumbers,
        )
        .unwrap();
    assert_eq!(none.len(&host), Ok(0));
    let all = o
        .get_all_property_names(
            &mut host,
            nodex_api::kinds::NapiKeyCollectionMode::KeyIncludePrototypes,
            nodex_api::kinds::NapiKeyFilter::KeyAllProperties,
            nodex_api::kinds::NapiKeyConversion::NumbersToStrings,
        )
        .unwrap();
    assert_eq!(all.len(&host), Ok(2));
}
