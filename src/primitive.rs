//! Marshaling of native primitives into host values and back.
use vstd::prelude::*;
use crate::host::{
    created, handle_made, plain, Data, HostView, JsValue, NapiEnv, NapiHost, Payload, FALSE_SLOT,
    GLOBAL_SLOT, NULL_SLOT, TRUE_SLOT, UNDEFINED_SLOT,
};
use crate::status::{NapiResult, NapiStatus};
use crate::value::{JsBigInt, JsBoolean, JsGlobal, JsNull, JsNumber, JsString, JsSymbol, JsUndefined};

verus! {

/// The slot of the boolean singleton for `b`.
pub open spec fn bool_slot(b: bool) -> usize {
    if b {
        TRUE_SLOT
    } else {
        FALSE_SLOT
    }
}

/// A handle to the value in a singleton slot.
fn singleton(host: &mut NapiHost, slot: usize) -> (r: JsValue)
    requires
        old(host)@.wf(),
        slot <= TRUE_SLOT,
    ensures
        final(host)@.wf(),
        old(host)@.succeeds(final(host)@),
        handle_made(old(host)@, final(host)@, r, slot),
        final(host)@.valid(r),
{
    host.new_handle(slot)
}

/// A new value holding `p`, with a handle to it.
fn make(host: &mut NapiHost, p: Payload) -> (r: JsValue)
    requires
        old(host)@.wf(),
    ensures
        final(host)@.wf(),
        old(host)@.succeeds(final(host)@),
        created(old(host)@, final(host)@, r, p@),
        final(host)@.valid(r),
        final(host)@.data(r.raw) == p@,
{
    host.create(plain(p))
}

/// The data of the value behind a live handle.
pub open spec fn data_of(host: HostView, v: JsValue) -> Option<Data> {
    if host.valid(v) {
        Some(host.data(v.raw))
    } else {
        None
    }
}

impl JsUndefined {
    /// The `undefined` singleton.
    pub fn new(env: NapiEnv, host: &mut NapiHost) -> (r: NapiResult<JsUndefined>)
        requires
            old(host)@.wf(),
        ensures
            final(host)@.wf(),
            old(host)@.succeeds(final(host)@),
            r matches Ok(u) && handle_made(old(host)@, final(host)@, u.0, UNDEFINED_SLOT),
    {
        Ok(JsUndefined(singleton(host, UNDEFINED_SLOT)))
    }
}

impl JsNull {
    /// The `null` singleton.
    pub fn new(env: NapiEnv, host: &mut NapiHost) -> (r: NapiResult<JsNull>)
        requires
            old(host)@.wf(),
        ensures
            final(host)@.wf(),
            old(host)@.succeeds(final(host)@),
            r matches Ok(u) && handle_made(old(host)@, final(host)@, u.0, NULL_SLOT),
    {
        Ok(JsNull(singleton(host, NULL_SLOT)))
    }
}

impl JsGlobal {
    /// The global object.
    pub fn new(env: NapiEnv, host: &mut NapiHost) -> (r: NapiResult<JsGlobal>)
        requires
            old(host)@.wf(),
        ensures
            final(host)@.wf(),
            old(host)@.succeeds(final(host)@),
            r matches Ok(u) && handle_made(old(host)@, final(host)@, u.0, GLOBAL_SLOT),
    {
        Ok(JsGlobal(singleton(host, GLOBAL_SLOT)))
    }
}

impl JsBoolean {
    /// The boolean singleton for `value`.
    pub fn new(env: NapiEnv, host: &mut NapiHost, value: bool) -> (r: NapiResult<JsBoolean>)
        requires
            old(host)@.wf(),
        ensures
            final(host)@.wf(),
            old(host)@.succeeds(final(host)@),
            r matches Ok(b) && handle_made(old(host)@, final(host)@, b.0, bool_slot(value)),
            r matches Ok(b) && final(host)@.data(b.0.raw) == Data::Bool(value),
    {
        let slot = if value {
            TRUE_SLOT
        } else {
            FALSE_SLOT
        };
        Ok(JsBoolean(singleton(host, slot)))
    }

    /// The native boolean this value holds; `BooleanExpected` for another kind of value,
    /// `InvalidArg` for a dead handle.
    pub fn get(&self, host: &NapiHost) -> (r: NapiResult<bool>)
        requires
            host@.wf(),
        ensures
            match data_of(host@, self.0) {
                None => r == Err::<bool, NapiStatus>(NapiStatus::InvalidArg),
                Some(Data::Bool(b)) => r == Ok::<bool, NapiStatus>(b),
                Some(_) => r == Err::<bool, NapiStatus>(NapiStatus::BooleanExpected),
            },
    {
        let t = host.target_of(self.0)?;
        match &host.entity(t).payload {
            Payload::Bool(b) => Ok(*b),
            _ => Err(NapiStatus::BooleanExpected),
        }
    }
}

impl JsNumber {
    /// A number holding a native `i32`.
    pub fn int32(env: NapiEnv, host: &mut NapiHost, value: i32) -> (r: NapiResult<JsNumber>)
        requires
            old(host)@.wf(),
        ensures
            final(host)@.wf(),
            old(host)@.succeeds(final(host)@),
            r matches Ok(n) && created(old(host)@, final(host)@, n.0, Data::Number(value as i64)),
    {
        Ok(JsNumber(make(host, Payload::Number(value as i64))))
    }

    /// A number holding a native `u32`.
    pub fn uint32(env: NapiEnv, host: &mut NapiHost, value: u32) -> (r: NapiResult<JsNumber>)
        requires
            old(host)@.wf(),
        ensures
            final(host)@.wf(),
            old(host)@.succeeds(final(host)@),
            r matches Ok(n) && created(old(host)@, final(host)@, n.0, Data::Number(value as i64)),
    {
        Ok(JsNumber(make(host, Payload::Number(value as i64))))
    }

    /// A number holding a native `i64`.
    pub fn int64(env: NapiEnv, host: &mut NapiHost, value: i64) -> (r: NapiResult<JsNumber>)
        requires
            old(host)@.wf(),
        ensures
            final(host)@.wf(),
            old(host)@.succeeds(final(host)@),
            r matches Ok(n) && created(old(host)@, final(host)@, n.0, Data::Number(value)),
    {
        Ok(JsNumber(make(host, Payload::Number(value))))
    }

    /// The number as an `i32`: its low 32 bits, so a large positive number may come back
    /// negative. `NumberExpected` for another kind of value, `InvalidArg` for a dead handle.
    pub fn get_value_int32(&self, host: &NapiHost) -> (r: NapiResult<i32>)
        requires
            host@.wf(),
        ensures
            match data_of(host@, self.0) {
                None => r == Err::<i32, NapiStatus>(NapiStatus::InvalidArg),
                Some(Data::Number(n)) => r == Ok::<i32, NapiStatus>(n as i32),
                Some(_) => r == Err::<i32, NapiStatus>(NapiStatus::NumberExpected),
            },
    {
        let t = host.target_of(self.0)?;
        match &host.entity(t).payload {
            Payload::Number(n) => Ok(*n as i32),
            _ => Err(NapiStatus::NumberExpected),
        }
    }

    /// The number as a `u32`: its low 32 bits. `NumberExpected` for another kind of value,
    /// `InvalidArg` for a dead handle.
    pub fn get_value_uint32(&self, host: &NapiHost) -> (r: NapiResult<u32>)
        requires
            host@.wf(),
        ensures
            match data_of(host@, self.0) {
                None => r == Err::<u32, NapiStatus>(NapiStatus::InvalidArg),
                Some(Data::Number(n)) => r == Ok::<u32, NapiStatus>(n as u32),
                Some(_) => r == Err::<u32, NapiStatus>(NapiStatus::NumberExpected),
            },
    {
        let t = host.target_of(self.0)?;
        match &host.entity(t).payload {
            Payload::Number(n) => Ok(*n as u32),
            _ => Err(NapiStatus::NumberExpected),
        }
    }

    /// The number as an `i64`. `NumberExpected` for another kind of value, `InvalidArg` for
    /// a dead handle.
    pub fn get_value_int64(&self, host: &NapiHost) -> (r: NapiResult<i64>)
        requires
            host@.wf(),
        ensures
            match data_of(host@, self.0) {
                None => r == Err::<i64, NapiStatus>(NapiStatus::InvalidArg),
                Some(Data::Number(n)) => r == Ok::<i64, NapiStatus>(n),
                Some(_) => r == Err::<i64, NapiStatus>(NapiStatus::NumberExpected),
            },
    {
        let t = host.target_of(self.0)?;
        match &host.entity(t).payload {
            Payload::Number(n) => Ok(*n),
            _ => Err(NapiStatus::NumberExpected),
        }
    }
}

impl JsBigInt {
    /// A big integer holding a native `i64`.
    pub fn new_i64(env: NapiEnv, host: &mut NapiHost, value: i64) -> (r: NapiResult<JsBigInt>)
        requires
            old(host)@.wf(),
        ensures
            final(host)@.wf(),
            old(host)@.succeeds(final(host)@),
            r matches Ok(n) && created(old(host)@, final(host)@, n.0, Data::BigInt(value as i128)),
    {
        Ok(JsBigInt(make(host, Payload::BigInt(value as i128))))
    }

    /// A big integer holding a native `u64`.
    pub fn new_u64(env: NapiEnv, host: &mut NapiHost, value: u64) -> (r: NapiResult<JsBigInt>)
        requires
            old(host)@.wf(),
        ensures
            final(host)@.wf(),
            old(host)@.succeeds(final(host)@),
            r matches Ok(n) && created(old(host)@, final(host)@, n.0, Data::BigInt(value as i128)),
    {
        Ok(JsBigInt(make(host, Payload::BigInt(value as i128))))
    }

    /// The big integer as an `i64`, and whether that conversion lost nothing.
    /// `BigintExpected` for another kind of value, `InvalidArg` for a dead handle.
    pub fn get_i64(&self, host: &NapiHost) -> (r: NapiResult<(i64, bool)>)
        requires
            host@.wf(),
        ensures
            match data_of(host@, self.0) {
                None => r == Err::<(i64, bool), NapiStatus>(NapiStatus::InvalidArg),
                Some(Data::BigInt(n)) => r == Ok::<(i64, bool), NapiStatus>(
                    (n as i64, i64::MIN <= n <= i64::MAX),
                ),
                Some(_) => r == Err::<(i64, bool), NapiStatus>(NapiStatus::BigintExpected),
            },
    {
        let t = host.target_of(self.0)?;
        match &host.entity(t).payload {
            Payload::BigInt(n) => Ok((*n as i64, i64::MIN as i128 <= *n && *n <= i64::MAX as i128)),
            _ => Err(NapiStatus::BigintExpected),
        }
    }

    /// The big integer as a `u64`, and whether that conversion lost nothing.
    /// `BigintExpected` for another kind of value, `InvalidArg` for a dead handle.
    pub fn get_u64(&self, host: &NapiHost) -> (r: NapiResult<(u64, bool)>)
        requires
            host@.wf(),
        ensures
            match data_of(host@, self.0) {
                None => r == Err::<(u64, bool), NapiStatus>(NapiStatus::InvalidArg),
                Some(Data::BigInt(n)) => r == Ok::<(u64, bool), NapiStatus>(
                    (n as u64, 0 <= n <= u64::MAX),
                ),
                Some(_) => r == Err::<(u64, bool), NapiStatus>(NapiStatus::BigintExpected),
            },
    {
        let t = host.target_of(self.0)?;
        match &host.entity(t).payload {
            Payload::BigInt(n) => Ok((*n as u64, 0 <= *n && *n <= u64::MAX as i128)),
            _ => Err(NapiStatus::BigintExpected),
        }
    }
}

impl JsString {
    /// A string holding a copy of `value`.
    pub fn new(env: NapiEnv, host: &mut NapiHost, value: &str) -> (r: NapiResult<JsString>)
        requires
            old(host)@.wf(),
        ensures
            final(host)@.wf(),
            old(host)@.succeeds(final(host)@),
            r matches Ok(s) && created(old(host)@, final(host)@, s.0, Data::Text(value@)),
    {
        Self::utf8(env, host, value)
    }

    /// A string holding a copy of the UTF-8 text `value`.
    pub fn utf8(env: NapiEnv, host: &mut NapiHost, value: &str) -> (r: NapiResult<JsString>)
        requires
            old(host)@.wf(),
        ensures
            final(host)@.wf(),
            old(host)@.succeeds(final(host)@),
            r matches Ok(s) && created(old(host)@, final(host)@, s.0, Data::Text(value@)),
    {
        let owned = value.to_owned();
        Ok(JsString(make(host, Payload::Text(owned))))
    }

    /// A native copy of the string. `StringExpected` for another kind of value,
    /// `InvalidArg` for a dead handle.
    pub fn get(&self, host: &NapiHost) -> (r: NapiResult<String>)
        requires
            host@.wf(),
        ensures
            match data_of(host@, self.0) {
                None => r == Err::<String, NapiStatus>(NapiStatus::InvalidArg),
                Some(Data::Text(t)) => r matches Ok(s) && s@ == t,
                Some(_) => r == Err::<String, NapiStatus>(NapiStatus::StringExpected),
            },
    {
        self.get_utf8(host)
    }

    /// A native copy of the string as UTF-8. `StringExpected` for another kind of value,
    /// `InvalidArg` for a dead handle.
    pub fn get_utf8(&self, host: &NapiHost) -> (r: NapiResult<String>)
        requires
            host@.wf(),
        ensures
            match data_of(host@, self.0) {
                None => r == Err::<String, NapiStatus>(NapiStatus::InvalidArg),
                Some(Data::Text(t)) => r matches Ok(s) && s@ == t,
                Some(_) => r == Err::<String, NapiStatus>(NapiStatus::StringExpected),
            },
    {
        let t = host.target_of(self.0)?;
        match &host.entity(t).payload {
            Payload::Text(s) => Ok(s.clone()),
            _ => Err(NapiStatus::StringExpected),
        }
    }
}

impl JsSymbol {
    /// A new symbol without a description.
    pub fn new(env: NapiEnv, host: &mut NapiHost) -> (r: NapiResult<JsSymbol>)
        requires
            old(host)@.wf(),
        ensures
            final(host)@.wf(),
            old(host)@.succeeds(final(host)@),
            r matches Ok(s) && created(old(host)@, final(host)@, s.0, Data::Symbol(None)),
    {
        Ok(JsSymbol(make(host, Payload::Symbol(None))))
    }

    /// A new symbol described by the string `desc`. `StringExpected` when `desc` is not a
    /// string, `InvalidArg` when it is a dead handle; the host is unchanged on failure.
    pub fn description(env: NapiEnv, host: &mut NapiHost, desc: JsString) -> (r: NapiResult<
        JsSymbol,
    >)
        requires
            old(host)@.wf(),
        ensures
            final(host)@.wf(),
            old(host)@.succeeds(final(host)@),
            match data_of(old(host)@, desc.0) {
                None => r == Err::<JsSymbol, NapiStatus>(NapiStatus::InvalidArg) && final(host)@
                    == old(host)@,
                Some(Data::Text(t)) => r matches Ok(s) && created(
                    old(host)@,
                    final(host)@,
                    s.0,
                    Data::Symbol(Some(t)),
                ),
                Some(_) => r == Err::<JsSymbol, NapiStatus>(NapiStatus::StringExpected)
                    && final(host)@ == old(host)@,
            },
    {
        let text = desc.get_utf8(host)?;
        Ok(JsSymbol(make(host, Payload::Symbol(Some(text)))))
    }
}

} // verus!
