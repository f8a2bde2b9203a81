use nodex_api::callback::JsArgs;
use nodex_api::descriptor::{
    define_properties, DescriptorAccessorBuilder, DescriptorMethodBuilder, DescriptorValueBuilder,
};
use nodex_api::host::{NapiEnv, NapiHost};
use nodex_api::kinds::NapiPropertyAttributes;
use nodex_api::status::NapiStatus;
use nodex_api::value::{JsClass, JsNumber, JsObject, ValueKind};

fn setup() -> (NapiEnv, NapiHost) {
    let env = NapiEnv::from_raw(8);
    (env, NapiHost::new(env))
}

#[test]
fn value_descriptor_builds() {
    let (env, mut host) = setup();
    let v = env.int32(&mut host, 5).unwrap();
    let d = DescriptorValueBuilder::new()
        .with_utf8name("five")
        .with_value(v.0)
        .with_attribute(NapiPropertyAttributes::Writable)
        .with_attribute(NapiPropertyAttributes::Enumerable)
        .build()
        .unwrap();
    assert_eq!(d.attributes, 3);
    assert_eq!(d.raw().value, Some(v.0));
    assert_eq!(d.utf8name.as_deref(), Some("five"));
}

#[test]
fn descriptor_needs_a_name() {
    assert_eq!(DescriptorValueBuilder::new().build().err().map(|e| e), Some(NapiStatus::InvalidArg));
    let r = DescriptorValueBuilder::new().with_utf8name("a\0b").build();
    assert_eq!(r.err(), Some(NapiStatus::StringExpected));
}

#[test]
fn name_must_be_string_or_symbol() {
    let (env, mut host) = setup();
    let n = env.int32(&mut host, 1).unwrap();
    let b = DescriptorValueBuilder::new().with_name(&host, n.0);
    assert_eq!(b.name, None);
    let s = env.string(&mut host, "key").unwrap();
    let b = b.with_name(&host, s.0);
    assert_eq!(b.name, Some(s.0));
}

#[test]
fn define_properties_writes_in_order() {
    let (env, mut host) = setup();
    let o = env.object(&mut host).unwrap();
    let one = env.int32(&mut host, 1).unwrap();
    let two = env.int32(&mut host, 2).unwrap();
    let key = env.string(&mut host, "b").unwrap();
    let a = DescriptorValueBuilder::new().with_utf8name("a").with_value(one.0).build().unwrap();
    let b = DescriptorValueBuilder::new().with_name(&host, key.0).with_value(two.0).build().unwrap();
    let again = DescriptorValueBuilder::new().with_utf8name("a").with_value(two.0).build().unwrap();
    define_properties(&mut host, o.0, &vec![a, b, again]).unwrap();
    let got = o.get_named_property(&mut host, "a").unwrap();
    assert_eq!(JsNumber(got).get_value_int32(&host), Ok(2));
    let got = o.get_named_property(&mut host, "b").unwrap();
    assert_eq!(JsNumber(got).get_value_int32(&host), Ok(2));
}

#[test]
fn define_properties_checks_every_descriptor_first() {
    let (env, mut host) = setup();
    let o = env.object(&mut host).unwrap();
    let one = env.int32(&mut host, 1).unwrap();
    let a = DescriptorValueBuilder::new().with_utf8name("a").with_value(one.0).build().unwrap();
    let no_value = DescriptorValueBuilder::new().with_utf8name("b").build().unwrap();
    assert_eq!(define_properties(&mut host, o.0, &vec![a, no_value]), Err(NapiStatus::InvalidArg));
    assert_eq!(o.has_named_property(&host, "a"), Ok(false));
    let n = env.int32(&mut host, 3).unwrap();
    assert_eq!(define_properties(&mut host, n.0, &vec![]), Err(NapiStatus::ObjectExpected));
}

#[test]
fn method_descriptor_registers_the_closure() {
    let (env, mut host) = setup();
    let (d, cb) = DescriptorMethodBuilder::new()
        .with_utf8name("m")
        .with_method(|_this: JsObject, args: JsArgs| args.0.len(), vec![ValueKind::Number])
        .build(env, &mut host)
        .unwrap();
    assert_eq!(d.method, Some(cb.js_function().0));
    assert_eq!(cb.js_function().0.is_function(&host), Ok(true));
    let none: DescriptorMethodBuilder<fn()> = DescriptorMethodBuilder::new().with_utf8name("m");
    assert_eq!(none.build(env, &mut host).err(), Some(NapiStatus::InvalidArg));
}

#[test]
fn accessor_descriptor_registers_getter_and_setter() {
    let (env, mut host) = setup();
    let (d, g, s) = DescriptorAccessorBuilder::new()
        .with_utf8name("x")
        .with_getter(1u8)
        .with_setter(2u8, ValueKind::Number)
        .build(env, &mut host)
        .unwrap();
    assert_eq!(d.getter, Some(g.unwrap().js_function().0));
    assert_eq!(d.setter, Some(s.unwrap().js_function().0));
    let empty: DescriptorAccessorBuilder<u8, u8> = DescriptorAccessorBuilder::new().with_utf8name("x");
    let (d, g, s) = empty.build(env, &mut host).unwrap();
    assert!(d.getter.is_none() && d.setter.is_none() && g.is_none() && s.is_none());
    let unnamed: DescriptorAccessorBuilder<u8, u8> = DescriptorAccessorBuilder::new().with_getter(1);
    assert_eq!(unnamed.build(env, &mut host).err(), Some(NapiStatus::InvalidArg));
    let nul: DescriptorAccessorBuilder<u8, u8> = DescriptorAccessorBuilder::new().with_utf8name("a\0");
    assert_eq!(nul.build(env, &mut host).err(), Some(NapiStatus::StringExpected));
    let nul_method: DescriptorMethodBuilder<u8> = DescriptorMethodBuilder::new().with_utf8name("a\0");
    assert_eq!(nul_method.build(env, &mut host).err(), Some(NapiStatus::StringExpected));
}

#[test]
fn class_members_are_defined_on_the_constructor() {
    let (env, mut host) = setup();
    let v = env.int32(&mut host, 9).unwrap();
    let member = DescriptorValueBuilder::new()
        .with_utf8name("nine")
        .with_value(v.0)
        .with_attribute(NapiPropertyAttributes::Static)
        .build()
        .unwrap();
    let (class, ctor) = JsClass::new(env, &mut host, vec![], 0u8, &vec![member]).unwrap();
    assert_eq!(class.0, ctor.js_function().0);
    let got = JsObject(class.0).get_named_property(&mut host, "nine").unwrap();
    assert_eq!(JsNumber(got).get_value_int32(&host), Ok(9));
}
