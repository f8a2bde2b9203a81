use nodex_api::host::{NapiEnv, NapiHost};
use nodex_api::kinds::NapiValuetype;
use nodex_api::status::NapiStatus;
use nodex_api::value::{JsBigInt, JsBoolean, JsNumber, JsString, JsSymbol, ValueKind};

fn setup() -> (NapiEnv, NapiHost) {
    let env = NapiEnv::from_raw(1);
    (env, NapiHost::new(env))
}

#[test]
fn string_round_trip() {
    let (env, mut host) = setup();
    for s in ["", "hello", "héllo wörld", "a\u{1F600}b"] {
        let v = JsString::new(env, &mut host, s).unwrap();
        assert_eq!(v.get(&host).unwrap(), s);
        assert_eq!(v.get_utf8(&host).unwrap(), s);
    }
    let v = env.string(&mut host, "via env").unwrap();
    assert_eq!(v.get(&host).unwrap(), "via env");
}

#[test]
fn number_round_trip() {
    let (env, mut host) = setup();
    for x in [0i32, 1, -1, i32::MIN, i32::MAX] {
        let v = JsNumber::int32(env, &mut host, x).unwrap();
        assert_eq!(v.get_value_int32(&host), Ok(x));
        assert_eq!(v.get_value_int64(&host), Ok(x as i64));
    }
    let u = JsNumber::uint32(env, &mut host, u32::MAX).unwrap();
    assert_eq!(u.get_value_uint32(&host), Ok(u32::MAX));
    // the low 32 bits: a large positive number comes back negative
    assert_eq!(u.get_value_int32(&host), Ok(-1));
    let big = env.uint32(&mut host, 3_000_000_000).unwrap();
    assert_eq!(big.get_value_int32(&host), Ok(-1_294_967_296));
    let z = env.int64(&mut host, 0).unwrap();
    assert_eq!(z.get_value_int64(&host), Ok(0));
    let i = env.int32(&mut host, -7).unwrap();
    assert_eq!(i.get_value_uint32(&host), Ok(4_294_967_289));
}

#[test]
fn boolean_round_trip() {
    let (env, mut host) = setup();
    let t = JsBoolean::new(env, &mut host, true).unwrap();
    let f = env.boolean(&mut host, false).unwrap();
    assert_eq!(t.get(&host), Ok(true));
    assert_eq!(f.get(&host), Ok(false));
}

#[test]
fn bigint_round_trip() {
    let (env, mut host) = setup();
    for x in [i64::MIN, -1, 0, 1, i64::MAX] {
        let v = JsBigInt::new_i64(env, &mut host, x).unwrap();
        assert_eq!(v.get_i64(&host), Ok((x, true)));
    }
    let m = JsBigInt::new_u64(env, &mut host, u64::MAX).unwrap();
    assert_eq!(m.get_u64(&host), Ok((u64::MAX, true)));
    // u64::MAX does not fit an i64: the conversion reports the loss
    assert_eq!(m.get_i64(&host), Ok((-1, false)));
    let n = env.bigint_i64(&mut host, -5).unwrap();
    assert_eq!(n.get_u64(&host), Ok((u64::MAX - 4, false)));
    let z = env.bigint_u64(&mut host, 0).unwrap();
    assert_eq!(z.get_u64(&host), Ok((0, true)));
}

#[test]
fn wrong_kind_reads_fail_with_expected_status() {
    let (env, mut host) = setup();
    let s = JsString::new(env, &mut host, "x").unwrap();
    let n = JsNumber::int32(env, &mut host, 3).unwrap();
    assert_eq!(JsNumber(s.0).get_value_int32(&host), Err(NapiStatus::NumberExpected));
    assert_eq!(JsString(n.0).get(&host), Err(NapiStatus::StringExpected));
    assert_eq!(JsBoolean(n.0).get(&host), Err(NapiStatus::BooleanExpected));
    assert_eq!(JsBigInt(n.0).get_i64(&host), Err(NapiStatus::BigintExpected));
}

#[test]
fn kind_queries_and_casts() {
    let (env, mut host) = setup();
    let s = env.string(&mut host, "s").unwrap();
    let n = env.int32(&mut host, 1).unwrap();
    let o = env.object(&mut host).unwrap();
    let a = env.array(&mut host).unwrap();
    let u = env.undefined(&mut host).unwrap();
    let nl = env.null(&mut host).unwrap();
    let g = env.global(&mut host).unwrap();
    let sym = env.symbol(&mut host).unwrap();
    assert_eq!(s.0.kind(&host), Ok(NapiValuetype::String));
    assert_eq!(n.0.kind(&host), Ok(NapiValuetype::Number));
    assert_eq!(a.0.kind(&host), Ok(NapiValuetype::Object));
    assert_eq!(u.0.kind(&host), Ok(NapiValuetype::Undefined));
    assert_eq!(nl.0.kind(&host), Ok(NapiValuetype::Null));
    assert_eq!(g.0.kind(&host), Ok(NapiValuetype::Object));
    assert_eq!(sym.0.kind(&host), Ok(NapiValuetype::Symbol));
    assert_eq!(s.0.is_string(&host), Ok(true));
    assert_eq!(n.0.is_string(&host), Ok(false));
    assert_eq!(a.0.is_array(&host), Ok(true));
    assert_eq!(a.0.is_object(&host), Ok(true));
    assert_eq!(o.0.is_array(&host), Ok(false));
    assert_eq!(n.0.is_number(&host), Ok(true));
    assert_eq!(sym.0.is_symbol(&host), Ok(true));
    assert!(s.0.as_string(&host).is_ok());
    assert_eq!(n.0.as_string(&host).err(), Some(NapiStatus::StringExpected));
    assert_eq!(s.0.as_object(&host).err(), Some(NapiStatus::ObjectExpected));
    assert_eq!(s.0.as_array(&host).err(), Some(NapiStatus::ArrayExpected));
    assert_eq!(s.0.as_number(&host).err(), Some(NapiStatus::NumberExpected));
    assert_eq!(s.0.as_boolean(&host).err(), Some(NapiStatus::BooleanExpected));
    assert_eq!(s.0.as_bigint(&host).err(), Some(NapiStatus::BigintExpected));
    assert_eq!(s.0.as_date(&host).err(), Some(NapiStatus::DateExpected));
    assert_eq!(s.0.as_arraybuffer(&host).err(), Some(NapiStatus::ArraybufferExpected));
    assert_eq!(s.0.as_symbol(&host).err(), Some(NapiStatus::InvalidArg));
    assert_eq!(s.0.try_as(&host, ValueKind::Function), Err(NapiStatus::FunctionExpected));
    assert_eq!(ValueKind::Array.expected_status(), NapiStatus::ArrayExpected);
}

#[test]
fn symbol_description() {
    let (env, mut host) = setup();
    let d = env.string(&mut host, "tag").unwrap();
    let s = JsSymbol::description(env, &mut host, d).unwrap();
    assert_eq!(s.0.is_symbol(&host), Ok(true));
    let n = env.int32(&mut host, 1).unwrap();
    assert_eq!(env.symbol_description(&mut host, JsString(n.0)).err(), Some(NapiStatus::StringExpected));
}

#[test]
fn singletons_share_their_value() {
    let (env, mut host) = setup();
    let a = env.undefined(&mut host).unwrap();
    let b = env.undefined(&mut host).unwrap();
    assert_ne!(a.0.raw(), b.0.raw());
    assert_eq!(a.0.is_object(&host), Ok(false));
    assert_eq!(env.raw(), 1);
    assert_eq!(a.0.env(), env);
}
