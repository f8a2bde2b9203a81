//! Handles and their typed views: one `kind` query and a fallible cast per target kind.
use vstd::prelude::*;
use crate::host::{type_of, Data, JsValue, NapiEnv, NapiHost, Payload};
use crate::kinds::NapiValuetype;
use crate::status::{NapiResult, NapiStatus};

verus! {

/// The kinds of value a handle can be viewed as.
#[derive(Clone, Copy, Debug, PartialEq, Eq, Structural)]
pub enum ValueKind {
    Undefined,
    Null,
    Boolean,
    Number,
    String,
    Symbol,
    Object,
    Function,
    External,
    Bigint,
    Array,
    ArrayBuffer,
    Buffer,
    TypedArray,
    DataView,
    Date,
    Error,
    Promise,
}

/// A value with this data may be viewed as kind `k`.
pub open spec fn is_kind(d: Data, k: ValueKind) -> bool {
    match k {
        ValueKind::Undefined => d is Undefined,
        ValueKind::Null => d is Null,
        ValueKind::Boolean => d is Bool,
        ValueKind::Number => d is Number,
        ValueKind::String => d is Text,
        ValueKind::Symbol => d is Symbol,
        ValueKind::Object => type_of(d) == NapiValuetype::Object,
        ValueKind::Function => d is Function,
        ValueKind::External => d is External,
        ValueKind::Bigint => d is BigInt,
        ValueKind::Array => d is Array,
        ValueKind::ArrayBuffer => d is ArrayBuffer,
        ValueKind::Buffer => d is Buffer,
        ValueKind::TypedArray => d is TypedArray,
        ValueKind::DataView => d is DataView,
        ValueKind::Date => d is Date,
        ValueKind::Error => d is Error,
        ValueKind::Promise => d is Promise,
    }
}

/// The error a failed cast to kind `k` reports.
pub open spec fn expected_status(k: ValueKind) -> NapiStatus {
    match k {
        ValueKind::Object => NapiStatus::ObjectExpected,
        ValueKind::String => NapiStatus::StringExpected,
        ValueKind::Function => NapiStatus::FunctionExpected,
        ValueKind::Number => NapiStatus::NumberExpected,
        ValueKind::Boolean => NapiStatus::BooleanExpected,
        ValueKind::Array => NapiStatus::ArrayExpected,
        ValueKind::Bigint => NapiStatus::BigintExpected,
        ValueKind::Date => NapiStatus::DateExpected,
        ValueKind::ArrayBuffer => NapiStatus::ArraybufferExpected,
        _ => NapiStatus::InvalidArg,
    }
}

impl ValueKind {
    /// The error a failed cast to this kind reports.
    pub fn expected_status(&self) -> (r: NapiStatus)
        ensures
            r == expected_status(*self),
    {
        match self {
            ValueKind::Object => NapiStatus::ObjectExpected,
            ValueKind::String => NapiStatus::StringExpected,
            ValueKind::Function => NapiStatus::FunctionExpected,
            ValueKind::Number => NapiStatus::NumberExpected,
            ValueKind::Boolean => NapiStatus::BooleanExpected,
            ValueKind::Array => NapiStatus::ArrayExpected,
            ValueKind::Bigint => NapiStatus::BigintExpected,
            ValueKind::Date => NapiStatus::DateExpected,
            ValueKind::ArrayBuffer => NapiStatus::ArraybufferExpected,
            _ => NapiStatus::InvalidArg,
        }
    }
}

/// The type tag of a payload.
fn payload_type(p: &Payload) -> (r: NapiValuetype)
    ensures
        r == type_of(p@),
{
    match p {
        Payload::Undefined => NapiValuetype::Undefined,
        Payload::Null => NapiValuetype::Null,
        Payload::Bool(_) => NapiValuetype::Boolean,
        Payload::Number(_) => NapiValuetype::Number,
        Payload::Text(_) => NapiValuetype::String,
        Payload::Symbol(_) => NapiValuetype::Symbol,
        Payload::Function(_) => NapiValuetype::Function,
        Payload::External(_) => NapiValuetype::External,
        Payload::BigInt(_) => NapiValuetype::Bigint,
        _ => NapiValuetype::Object,
    }
}

/// Whether a payload may be viewed as kind `k`.
fn payload_is(p: &Payload, k: ValueKind) -> (r: bool)
    ensures
        r == is_kind(p@, k),
{
    match k {
        ValueKind::Undefined => matches!(p, Payload::Undefined),
        ValueKind::Null => matches!(p, Payload::Null),
        ValueKind::Boolean => matches!(p, Payload::Bool(_)),
        ValueKind::Number => matches!(p, Payload::Number(_)),
        ValueKind::String => matches!(p, Payload::Text(_)),
        ValueKind::Symbol => matches!(p, Payload::Symbol(_)),
        ValueKind::Object => payload_type(p) == NapiValuetype::Object,
        ValueKind::Function => matches!(p, Payload::Function(_)),
        ValueKind::External => matches!(p, Payload::External(_)),
        ValueKind::Bigint => matches!(p, Payload::BigInt(_)),
        ValueKind::Array => matches!(p, Payload::Array(_)),
        ValueKind::ArrayBuffer => matches!(p, Payload::ArrayBuffer(..)),
        ValueKind::Buffer => matches!(p, Payload::Buffer(_)),
        ValueKind::TypedArray => matches!(p, Payload::TypedArray(..)),
        ValueKind::DataView => matches!(p, Payload::DataView(..)),
        ValueKind::Date => matches!(p, Payload::Date(_)),
        ValueKind::Error => matches!(p, Payload::Error(..)),
        ValueKind::Promise => matches!(p, Payload::Promise(_)),
    }
}

/// The outcome of asking whether handle `raw` is of kind `k`.
pub open spec fn check_result(host: crate::host::HostView, v: JsValue, k: ValueKind) -> NapiResult<bool> {
    if host.valid(v) {
        Ok(is_kind(host.data(v.raw), k))
    } else {
        Err(NapiStatus::InvalidArg)
    }
}

/// The outcome of casting handle `v` to kind `k`: the same handle, or the kind's error.
pub open spec fn cast_result(host: crate::host::HostView, v: JsValue, k: ValueKind) -> NapiResult<JsValue> {
    if !host.valid(v) {
        Err(NapiStatus::InvalidArg)
    } else if is_kind(host.data(v.raw), k) {
        Ok(v)
    } else {
        Err(expected_status(k))
    }
}

impl JsValue {
    /// The environment of this handle.
    pub fn env(&self) -> (r: NapiEnv)
        ensures
            r == self.env,
    {
        self.env
    }

    /// The slot of this handle in the host's handle table.
    pub fn raw(&self) -> (r: usize)
        ensures
            r == self.raw,
    {
        self.raw
    }

    /// The type tag of the value; `InvalidArg` for a dead handle.
    pub fn kind(&self, host: &NapiHost) -> (r: NapiResult<NapiValuetype>)
        requires
            host@.wf(),
        ensures
            r is Ok <==> host@.valid(*self),
            r matches Ok(t) ==> t == host@.kind(self.raw),
            r matches Err(e) ==> e == NapiStatus::InvalidArg,
    {
        let t = host.target_of(*self)?;
        Ok(payload_type(&host.entity(t).payload))
    }

    /// Whether the value is of kind `k`; `InvalidArg` for a dead handle.
    pub fn check(&self, host: &NapiHost, k: ValueKind) -> (r: NapiResult<bool>)
        requires
            host@.wf(),
        ensures
            r == check_result(host@, *self, k),
    {
        let t = host.target_of(*self)?;
        Ok(payload_is(&host.entity(t).payload, k))
    }

    /// This handle, checked to be of kind `k`; the kind's "expected" error otherwise.
    pub fn try_as(&self, host: &NapiHost, k: ValueKind) -> (r: NapiResult<JsValue>)
        requires
            host@.wf(),
        ensures
            r == cast_result(host@, *self, k),
    {
        let t = host.target_of(*self)?;
        if payload_is(&host.entity(t).payload, k) {
            Ok(*self)
        } else {
            Err(k.expected_status())
        }
    }

    /// Whether the value is an object; `InvalidArg` for a dead handle.
    pub fn is_object(&self, host: &NapiHost) -> (r: NapiResult<bool>)
        requires
            host@.wf(),
        ensures
            r == check_result(host@, *self, ValueKind::Object),
    {
        self.check(host, ValueKind::Object)
    }

    /// This value viewed as an object; fails when it is not one.
    pub fn as_object(&self, host: &NapiHost) -> (r: NapiResult<JsObject>)
        requires
            host@.wf(),
        ensures
            r is Ok <==> cast_result(host@, *self, ValueKind::Object) is Ok,
            r matches Ok(x) ==> x.0 == *self,
            r matches Err(e) ==> cast_result(host@, *self, ValueKind::Object) == Err::<JsValue, NapiStatus>(e),
    {
        let v = self.try_as(host, ValueKind::Object)?;
        Ok(JsObject(v))
    }

    /// Whether the value is a string; `InvalidArg` for a dead handle.
    pub fn is_string(&self, host: &NapiHost) -> (r: NapiResult<bool>)
        requires
            host@.wf(),
        ensures
            r == check_result(host@, *self, ValueKind::String),
    {
        self.check(host, ValueKind::String)
    }

    /// This value viewed as a string; fails when it is not one.
    pub fn as_string(&self, host: &NapiHost) -> (r: NapiResult<JsString>)
        requires
            host@.wf(),
        ensures
            r is Ok <==> cast_result(host@, *self, ValueKind::String) is Ok,
            r matches Ok(x) ==> x.0 == *self,
            r matches Err(e) ==> cast_result(host@, *self, ValueKind::String) == Err::<JsValue, NapiStatus>(e),
    {
        let v = self.try_as(host, ValueKind::String)?;
        Ok(JsString(v))
    }

    /// Whether the value is a symbol; `InvalidArg` for a dead handle.
    pub fn is_symbol(&self, host: &NapiHost) -> (r: NapiResult<bool>)
        requires
            host@.wf(),
        ensures
            r == check_result(host@, *self, ValueKind::Symbol),
    {
        self.check(host, ValueKind::Symbol)
    }

    /// This value viewed as a symbol; fails when it is not one.
    pub fn as_symbol(&self, host: &NapiHost) -> (r: NapiResult<JsSymbol>)
        requires
            host@.wf(),
        ensures
            r is Ok <==> cast_result(host@, *self, ValueKind::Symbol) is Ok,
            r matches Ok(x) ==> x.0 == *self,
            r matches Err(e) ==> cast_result(host@, *self, ValueKind::Symbol) == Err::<JsValue, NapiStatus>(e),
    {
        let v = self.try_as(host, ValueKind::Symbol)?;
        Ok(JsSymbol(v))
    }

    /// Whether the value is an array; `InvalidArg` for a dead handle.
    pub fn is_array(&self, host: &NapiHost) -> (r: NapiResult<bool>)
        requires
            host@.wf(),
        ensures
            r == check_result(host@, *self, ValueKind::Array),
    {
        self.check(host, ValueKind::Array)
    }

    /// This value viewed as an array; fails when it is not one.
    pub fn as_array(&self, host: &NapiHost) -> (r: NapiResult<JsArray>)
        requires
            host@.wf(),
        ensures
            r is Ok <==> cast_result(host@, *self, ValueKind::Array) is Ok,
            r matches Ok(x) ==> x.0 == *self,
            r matches Err(e) ==> cast_result(host@, *self, ValueKind::Array) == Err::<JsValue, NapiStatus>(e),
    {
        let v = self.try_as(host, ValueKind::Array)?;
        Ok(JsArray(v))
    }

    /// Whether the value is a typedarray; `InvalidArg` for a dead handle.
    pub fn is_typedarray(&self, host: &NapiHost) -> (r: NapiResult<bool>)
        requires
            host@.wf(),
        ensures
            r == check_result(host@, *self, ValueKind::TypedArray),
    {
        self.check(host, ValueKind::TypedArray)
    }

    /// This value viewed as a typedarray; fails when it is not one.
    pub fn as_typedarray(&self, host: &NapiHost) -> (r: NapiResult<JsTypedArray>)
        requires
            host@.wf(),
        ensures
            r is Ok <==> cast_result(host@, *self, ValueKind::TypedArray) is Ok,
            r matches Ok(x) ==> x.0 == *self,
            r matches Err(e) ==> cast_result(host@, *self, ValueKind::TypedArray) == Err::<JsValue, NapiStatus>(e),
    {
        let v = self.try_as(host, ValueKind::TypedArray)?;
        Ok(JsTypedArray(v))
    }

    /// Whether the value is an arraybuffer; `InvalidArg` for a dead handle.
    pub fn is_arraybuffer(&self, host: &NapiHost) -> (r: NapiResult<bool>)
        requires
            host@.wf(),
        ensures
            r == check_result(host@, *self, ValueKind::ArrayBuffer),
    {
        self.check(host, ValueKind::ArrayBuffer)
    }

    /// This value viewed as an arraybuffer; fails when it is not one.
    pub fn as_arraybuffer(&self, host: &NapiHost) -> (r: NapiResult<JsArrayBuffer>)
        requires
            host@.wf(),
        ensures
            r is Ok <==> cast_result(host@, *self, ValueKind::ArrayBuffer) is Ok,
            r matches Ok(x) ==> x.0 == *self,
            r matches Err(e) ==> cast_result(host@, *self, ValueKind::ArrayBuffer) == Err::<JsValue, NapiStatus>(e),
    {
        let v = self.try_as(host, ValueKind::ArrayBuffer)?;
        Ok(JsArrayBuffer(v))
    }

    /// Whether the value is a buffer; `InvalidArg` for a dead handle.
    pub fn is_buffer(&self, host: &NapiHost) -> (r: NapiResult<bool>)
        requires
            host@.wf(),
        ensures
            r == check_result(host@, *self, ValueKind::Buffer),
    {
        self.check(host, ValueKind::Buffer)
    }

    /// This value viewed as a buffer; fails when it is not one.
    pub fn as_buffer(&self, host: &NapiHost) -> (r: NapiResult<JsBuffer>)
        requires
            host@.wf(),
        ensures
            r is Ok <==> cast_result(host@, *self, ValueKind::Buffer) is Ok,
            r matches Ok(x) ==> x.0 == *self,
            r matches Err(e) ==> cast_result(host@, *self, ValueKind::Buffer) == Err::<JsValue, NapiStatus>(e),
    {
        let v = self.try_as(host, ValueKind::Buffer)?;
        Ok(JsBuffer(v))
    }

    /// Whether the value is a dataview; `InvalidArg` for a dead handle.
    pub fn is_dataview(&self, host: &NapiHost) -> (r: NapiResult<bool>)
        requires
            host@.wf(),
        ensures
            r == check_result(host@, *self, ValueKind::DataView),
    {
        self.check(host, ValueKind::DataView)
    }

    /// This value viewed as a dataview; fails when it is not one.
    pub fn as_dataview(&self, host: &NapiHost) -> (r: NapiResult<JsDataView>)
        requires
            host@.wf(),
        ensures
            r is Ok <==> cast_result(host@, *self, ValueKind::DataView) is Ok,
            r matches Ok(x) ==> x.0 == *self,
            r matches Err(e) ==> cast_result(host@, *self, ValueKind::DataView) == Err::<JsValue, NapiStatus>(e),
    {
        let v = self.try_as(host, ValueKind::DataView)?;
        Ok(JsDataView(v))
    }

    /// Whether the value is an external; `InvalidArg` for a dead handle.
    pub fn is_external(&self, host: &NapiHost) -> (r: NapiResult<bool>)
        requires
            host@.wf(),
        ensures
            r == check_result(host@, *self, ValueKind::External),
    {
        self.check(host, ValueKind::External)
    }

    /// This value viewed as an external; fails when it is not one.
    pub fn as_external(&self, host: &NapiHost) -> (r: NapiResult<JsExternal>)
        requires
            host@.wf(),
        ensures
            r is Ok <==> cast_result(host@, *self, ValueKind::External) is Ok,
            r matches Ok(x) ==> x.0 == *self,
            r matches Err(e) ==> cast_result(host@, *self, ValueKind::External) == Err::<JsValue, NapiStatus>(e),
    {
        let v = self.try_as(host, ValueKind::External)?;
        Ok(JsExternal(v))
    }

    /// Whether the value is a function; `InvalidArg` for a dead handle.
    pub fn is_function(&self, host: &NapiHost) -> (r: NapiResult<bool>)
        requires
            host@.wf(),
        ensures
            r == check_result(host@, *self, ValueKind::Function),
    {
        self.check(host, ValueKind::Function)
    }

    /// Whether the value is a number; `InvalidArg` for a dead handle.
    pub fn is_number(&self, host: &NapiHost) -> (r: NapiResult<bool>)
        requires
            host@.wf(),
        ensures
            r == check_result(host@, *self, ValueKind::Number),
    {
        self.check(host, ValueKind::Number)
    }

    /// This value viewed as a number; fails when it is not one.
    pub fn as_number(&self, host: &NapiHost) -> (r: NapiResult<JsNumber>)
        requires
            host@.wf(),
        ensures
            r is Ok <==> cast_result(host@, *self, ValueKind::Number) is Ok,
            r matches Ok(x) ==> x.0 == *self,
            r matches Err(e) ==> cast_result(host@, *self, ValueKind::Number) == Err::<JsValue, NapiStatus>(e),
    {
        let v = self.try_as(host, ValueKind::Number)?;
        Ok(JsNumber(v))
    }

    /// Whether the value is a bigint; `InvalidArg` for a dead handle.
    pub fn is_bigint(&self, host: &NapiHost) -> (r: NapiResult<bool>)
        requires
            host@.wf(),
        ensures
            r == check_result(host@, *self, ValueKind::Bigint),
    {
        self.check(host, ValueKind::Bigint)
    }

    /// This value viewed as a bigint; fails when it is not one.
    pub fn as_bigint(&self, host: &NapiHost) -> (r: NapiResult<JsBigInt>)
        requires
            host@.wf(),
        ensures
            r is Ok <==> cast_result(host@, *self, ValueKind::Bigint) is Ok,
            r matches Ok(x) ==> x.0 == *self,
            r matches Err(e) ==> cast_result(host@, *self, ValueKind::Bigint) == Err::<JsValue, NapiStatus>(e),
    {
        let v = self.try_as(host, ValueKind::Bigint)?;
        Ok(JsBigInt(v))
    }

    /// Whether the value is a boolean; `InvalidArg` for a dead handle.
    pub fn is_boolean(&self, host: &NapiHost) -> (r: NapiResult<bool>)
        requires
            host@.wf(),
        ensures
            r == check_result(host@, *self, ValueKind::Boolean),
    {
        self.check(host, ValueKind::Boolean)
    }

    /// This value viewed as a boolean; fails when it is not one.
    pub fn as_boolean(&self, host: &NapiHost) -> (r: NapiResult<JsBoolean>)
        requires
            host@.wf(),
        ensures
            r is Ok <==> cast_result(host@, *self, ValueKind::Boolean) is Ok,
            r matches Ok(x) ==> x.0 == *self,
            r matches Err(e) ==> cast_result(host@, *self, ValueKind::Boolean) == Err::<JsValue, NapiStatus>(e),
    {
        let v = self.try_as(host, ValueKind::Boolean)?;
        Ok(JsBoolean(v))
    }

    /// Whether the value is a date; `InvalidArg` for a dead handle.
    pub fn is_date(&self, host: &NapiHost) -> (r: NapiResult<bool>)
        requires
            host@.wf(),
        ensures
            r == check_result(host@, *self, ValueKind::Date),
    {
        self.check(host, ValueKind::Date)
    }

    /// This value viewed as a date; fails when it is not one.
    pub fn as_date(&self, host: &NapiHost) -> (r: NapiResult<JsDate>)
        requires
            host@.wf(),
        ensures
            r is Ok <==> cast_result(host@, *self, ValueKind::Date) is Ok,
            r matches Ok(x) ==> x.0 == *self,
            r matches Err(e) ==> cast_result(host@, *self, ValueKind::Date) == Err::<JsValue, NapiStatus>(e),
    {
        let v = self.try_as(host, ValueKind::Date)?;
        Ok(JsDate(v))
    }
}

/// An object.
#[derive(Clone, Copy, Debug, PartialEq, Eq, Structural)]
pub struct JsObject(pub JsValue);

impl JsObject {
    /// The handle this view wraps.
    pub fn value(&self) -> (r: JsValue)
        ensures
            r == self.0,
    {
        self.0
    }
}

/// A string.
#[derive(Clone, Copy, Debug, PartialEq, Eq, Structural)]
pub struct JsString(pub JsValue);

impl JsString {
    /// The handle this view wraps.
    pub fn value(&self) -> (r: JsValue)
        ensures
            r == self.0,
    {
        self.0
    }
}

/// A symbol.
#[derive(Clone, Copy, Debug, PartialEq, Eq, Structural)]
pub struct JsSymbol(pub JsValue);

impl JsSymbol {
    /// The handle this view wraps.
    pub fn value(&self) -> (r: JsValue)
        ensures
            r == self.0,
    {
        self.0
    }
}

/// An array.
#[derive(Clone, Copy, Debug, PartialEq, Eq, Structural)]
pub struct JsArray(pub JsValue);

impl JsArray {
    /// The handle this view wraps.
    pub fn value(&self) -> (r: JsValue)
        ensures
            r == self.0,
    {
        self.0
    }
}

/// A typed array.
#[derive(Clone, Copy, Debug, PartialEq, Eq, Structural)]
pub struct JsTypedArray(pub JsValue);

impl JsTypedArray {
    /// The handle this view wraps.
    pub fn value(&self) -> (r: JsValue)
        ensures
            r == self.0,
    {
        self.0
    }
}

/// An array buffer.
#[derive(Clone, Copy, Debug, PartialEq, Eq, Structural)]
pub struct JsArrayBuffer(pub JsValue);

impl JsArrayBuffer {
    /// The handle this view wraps.
    pub fn value(&self) -> (r: JsValue)
        ensures
            r == self.0,
    {
        self.0
    }
}

/// A byte buffer.
#[derive(Clone, Copy, Debug, PartialEq, Eq, Structural)]
pub struct JsBuffer(pub JsValue);

impl JsBuffer {
    /// The handle this view wraps.
    pub fn value(&self) -> (r: JsValue)
        ensures
            r == self.0,
    {
        self.0
    }
}

/// A data view over an array buffer.
#[derive(Clone, Copy, Debug, PartialEq, Eq, Structural)]
pub struct JsDataView(pub JsValue);

impl JsDataView {
    /// The handle this view wraps.
    pub fn value(&self) -> (r: JsValue)
        ensures
            r == self.0,
    {
        self.0
    }
}

/// A value carrying native data.
#[derive(Clone, Copy, Debug, PartialEq, Eq, Structural)]
pub struct JsExternal(pub JsValue);

impl JsExternal {
    /// The handle this view wraps.
    pub fn value(&self) -> (r: JsValue)
        ensures
            r == self.0,
    {
        self.0
    }
}

/// A function.
#[derive(Clone, Copy, Debug, PartialEq, Eq, Structural)]
pub struct JsFunction(pub JsValue);

impl JsFunction {
    /// The handle this view wraps.
    pub fn value(&self) -> (r: JsValue)
        ensures
            r == self.0,
    {
        self.0
    }
}

/// A number.
#[derive(Clone, Copy, Debug, PartialEq, Eq, Structural)]
pub struct JsNumber(pub JsValue);

impl JsNumber {
    /// The handle this view wraps.
    pub fn value(&self) -> (r: JsValue)
        ensures
            r == self.0,
    {
        self.0
    }
}

/// A big integer.
#[derive(Clone, Copy, Debug, PartialEq, Eq, Structural)]
pub struct JsBigInt(pub JsValue);

impl JsBigInt {
    /// The handle this view wraps.
    pub fn value(&self) -> (r: JsValue)
        ensures
            r == self.0,
    {
        self.0
    }
}

/// A boolean.
#[derive(Clone, Copy, Debug, PartialEq, Eq, Structural)]
pub struct JsBoolean(pub JsValue);

impl JsBoolean {
    /// The handle this view wraps.
    pub fn value(&self) -> (r: JsValue)
        ensures
            r == self.0,
    {
        self.0
    }
}

/// A date.
#[derive(Clone, Copy, Debug, PartialEq, Eq, Structural)]
pub struct JsDate(pub JsValue);

impl JsDate {
    /// The handle this view wraps.
    pub fn value(&self) -> (r: JsValue)
        ensures
            r == self.0,
    {
        self.0
    }
}

/// The `null` value.
#[derive(Clone, Copy, Debug, PartialEq, Eq, Structural)]
pub struct JsNull(pub JsValue);

impl JsNull {
    /// The handle this view wraps.
    pub fn value(&self) -> (r: JsValue)
        ensures
            r == self.0,
    {
        self.0
    }
}

/// The `undefined` value.
#[derive(Clone, Copy, Debug, PartialEq, Eq, Structural)]
pub struct JsUndefined(pub JsValue);

impl JsUndefined {
    /// The handle this view wraps.
    pub fn value(&self) -> (r: JsValue)
        ensures
            r == self.0,
    {
        self.0
    }
}

/// The global object.
#[derive(Clone, Copy, Debug, PartialEq, Eq, Structural)]
pub struct JsGlobal(pub JsValue);

impl JsGlobal {
    /// The handle this view wraps.
    pub fn value(&self) -> (r: JsValue)
        ensures
            r == self.0,
    {
        self.0
    }
}

/// An error object.
#[derive(Clone, Copy, Debug, PartialEq, Eq, Structural)]
pub struct JsError(pub JsValue);

impl JsError {
    /// The handle this view wraps.
    pub fn value(&self) -> (r: JsValue)
        ensures
            r == self.0,
    {
        self.0
    }
}

/// A class constructor.
#[derive(Clone, Copy, Debug, PartialEq, Eq, Structural)]
pub struct JsClass(pub JsValue);

impl JsClass {
    /// The handle this view wraps.
    pub fn value(&self) -> (r: JsValue)
        ensures
            r == self.0,
    {
        self.0
    }
}

} // verus!
