//! The checked views of a handle, and the conversion between argument lists and views.
use vstd::prelude::*;
use crate::callback::{marshal_ok, JsArgs};
use crate::host::{JsValue, NapiHost};
use crate::status::NapiResult;
use crate::value::{
    check_result, JsArray, JsArrayBuffer, JsBigInt, JsBoolean, JsBuffer, JsDataView, JsDate,
    JsError, JsExternal, JsFunction, JsGlobal, JsNull, JsNumber, JsObject, JsString, JsSymbol,
    JsTypedArray, JsUndefined, ValueKind,
};

verus! {

/// A typed view of a handle, checked against the kind it stands for.
pub trait NapiValueCheck: Sized {
    /// The kind this view stands for.
    spec fn view_kind() -> ValueKind;

    /// The handle the view wraps.
    spec fn handle(&self) -> JsValue;

    /// Whether the value behind the handle is of this view's kind; `InvalidArg` for a dead
    /// handle.
    fn check(&self, host: &NapiHost) -> (r: NapiResult<bool>)
        requires
            host@.wf(),
        ensures
            r == check_result(host@, self.handle(), Self::view_kind()),
    ;

    /// The view of `v`, unchecked.
    fn from_value(v: JsValue) -> (r: Self)
        ensures
            r.handle() == v,
    ;
}

/// A view that an argument list of one element converts to.
pub trait FromJsArgs: Sized {
    /// The kinds of the arguments, in order.
    spec fn params() -> Seq<ValueKind>;

    /// The handles the converted value holds.
    spec fn handles(&self) -> Seq<JsValue>;

    /// How many arguments the conversion takes.
    fn len() -> (r: usize)
        ensures
            r == Self::params().len(),
    ;

    /// Converts the first arguments, checking each against its declared kind.
    fn from_js_args(host: &NapiHost, args: &JsArgs) -> (r: NapiResult<Self>)
        requires
            host@.wf(),
        ensures
            r is Ok <==> marshal_ok(host@, args.0@, Self::params()),
            r matches Ok(v) ==> v.handles() == args.0@.take(Self::params().len() as int),
    ;
}

/// A value that converts to an argument list.
pub trait ToJsArgs: Sized {
    /// The handles of the list.
    spec fn handles(&self) -> Seq<JsValue>;

    /// The argument list.
    fn to_js_args(self) -> (r: JsArgs)
        ensures
            r.0@ == self.handles(),
    ;
}

impl FromJsArgs for () {
    open spec fn params() -> Seq<ValueKind> {
        Seq::empty()
    }

    open spec fn handles(&self) -> Seq<JsValue> {
        Seq::empty()
    }

    fn len() -> (r: usize) {
        0
    }

    fn from_js_args(host: &NapiHost, args: &JsArgs) -> (r: NapiResult<()>) {
        assert(args.0@.take(0) =~= Seq::<JsValue>::empty());
        Ok(())
    }
}

impl ToJsArgs for () {
    open spec fn handles(&self) -> Seq<JsValue> {
        Seq::empty()
    }

    fn to_js_args(self) -> (r: JsArgs) {
        let v: Vec<JsValue> = Vec::new();
        JsArgs(v)
    }
}

impl ToJsArgs for JsValue {
    open spec fn handles(&self) -> Seq<JsValue> {
        seq![*self]
    }

    fn to_js_args(self) -> (r: JsArgs) {
        let mut v: Vec<JsValue> = Vec::new();
        v.push(self);
        assert(v@ =~= seq![self]);
        JsArgs(v)
    }
}

impl NapiValueCheck for JsObject {
    open spec fn view_kind() -> ValueKind {
        ValueKind::Object
    }

    open spec fn handle(&self) -> JsValue {
        self.0
    }

    fn check(&self, host: &NapiHost) -> (r: NapiResult<bool>) {
        self.0.check(host, ValueKind::Object)
    }

    fn from_value(v: JsValue) -> (r: JsObject) {
        JsObject(v)
    }
}

impl NapiValueCheck for JsString {
    open spec fn view_kind() -> ValueKind {
        ValueKind::String
    }

    open spec fn handle(&self) -> JsValue {
        self.0
    }

    fn check(&self, host: &NapiHost) -> (r: NapiResult<bool>) {
        self.0.check(host, ValueKind::String)
    }

    fn from_value(v: JsValue) -> (r: JsString) {
        JsString(v)
    }
}

impl NapiValueCheck for JsSymbol {
    open spec fn view_kind() -> ValueKind {
        ValueKind::Symbol
    }

    open spec fn handle(&self) -> JsValue {
        self.0
    }

    fn check(&self, host: &NapiHost) -> (r: NapiResult<bool>) {
        self.0.check(host, ValueKind::Symbol)
    }

    fn from_value(v: JsValue) -> (r: JsSymbol) {
        JsSymbol(v)
    }
}

impl NapiValueCheck for JsArray {
    open spec fn view_kind() -> ValueKind {
        ValueKind::Array
    }

    open spec fn handle(&self) -> JsValue {
        self.0
    }

    fn check(&self, host: &NapiHost) -> (r: NapiResult<bool>) {
        self.0.check(host, ValueKind::Array)
    }

    fn from_value(v: JsValue) -> (r: JsArray) {
        JsArray(v)
    }
}

impl NapiValueCheck for JsTypedArray {
    open spec fn view_kind() -> ValueKind {
        ValueKind::TypedArray
    }

    open spec fn handle(&self) -> JsValue {
        self.0
    }

    fn check(&self, host: &NapiHost) -> (r: NapiResult<bool>) {
        self.0.check(host, ValueKind::TypedArray)
    }

    fn from_value(v: JsValue) -> (r: JsTypedArray) {
        JsTypedArray(v)
    }
}

impl NapiValueCheck for JsArrayBuffer {
    open spec fn view_kind() -> ValueKind {
        ValueKind::ArrayBuffer
    }

    open spec fn handle(&self) -> JsValue {
        self.0
    }

    fn check(&self, host: &NapiHost) -> (r: NapiResult<bool>) {
        self.0.check(host, ValueKind::ArrayBuffer)
    }

    fn from_value(v: JsValue) -> (r: JsArrayBuffer) {
        JsArrayBuffer(v)
    }
}

impl NapiValueCheck for JsBuffer {
    open spec fn view_kind() -> ValueKind {
        ValueKind::Buffer
    }

    open spec fn handle(&self) -> JsValue {
        self.0
    }

    fn check(&self, host: &NapiHost) -> (r: NapiResult<bool>) {
        self.0.check(host, ValueKind::Buffer)
    }

    fn from_value(v: JsValue) -> (r: JsBuffer) {
        JsBuffer(v)
    }
}

impl NapiValueCheck for JsDataView {
    open spec fn view_kind() -> ValueKind {
        ValueKind::DataView
    }

    open spec fn handle(&self) -> JsValue {
        self.0
    }

    fn check(&self, host: &NapiHost) -> (r: NapiResult<bool>) {
        self.0.check(host, ValueKind::DataView)
    }

    fn from_value(v: JsValue) -> (r: JsDataView) {
        JsDataView(v)
    }
}

impl NapiValueCheck for JsExternal {
    open spec fn view_kind() -> ValueKind {
        ValueKind::External
    }

    open spec fn handle(&self) -> JsValue {
        self.0
    }

    fn check(&self, host: &NapiHost) -> (r: NapiResult<bool>) {
        self.0.check(host, ValueKind::External)
    }

    fn from_value(v: JsValue) -> (r: JsExternal) {
        JsExternal(v)
    }
}

impl NapiValueCheck for JsFunction {
    open spec fn view_kind() -> ValueKind {
        ValueKind::Function
    }

    open spec fn handle(&self) -> JsValue {
        self.0
    }

    fn check(&self, host: &NapiHost) -> (r: NapiResult<bool>) {
        self.0.check(host, ValueKind::Function)
    }

    fn from_value(v: JsValue) -> (r: JsFunction) {
        JsFunction(v)
    }
}

impl NapiValueCheck for JsNumber {
    open spec fn view_kind() -> ValueKind {
        ValueKind::Number
    }

    open spec fn handle(&self) -> JsValue {
        self.0
    }

    fn check(&self, host: &NapiHost) -> (r: NapiResult<bool>) {
        self.0.check(host, ValueKind::Number)
    }

    fn from_value(v: JsValue) -> (r: JsNumber) {
        JsNumber(v)
    }
}

impl NapiValueCheck for JsBigInt {
    open spec fn view_kind() -> ValueKind {
        ValueKind::Bigint
    }

    open spec fn handle(&self) -> JsValue {
        self.0
    }

    fn check(&self, host: &NapiHost) -> (r: NapiResult<bool>) {
        self.0.check(host, ValueKind::Bigint)
    }

    fn from_value(v: JsValue) -> (r: JsBigInt) {
        JsBigInt(v)
    }
}

impl NapiValueCheck for JsBoolean {
    open spec fn view_kind() -> ValueKind {
        ValueKind::Boolean
    }

    open spec fn handle(&self) -> JsValue {
        self.0
    }

    fn check(&self, host: &NapiHost) -> (r: NapiResult<bool>) {
        self.0.check(host, ValueKind::Boolean)
    }

    fn from_value(v: JsValue) -> (r: JsBoolean) {
        JsBoolean(v)
    }
}

impl NapiValueCheck for JsDate {
    open spec fn view_kind() -> ValueKind {
        ValueKind::Date
    }

    open spec fn handle(&self) -> JsValue {
        self.0
    }

    fn check(&self, host: &NapiHost) -> (r: NapiResult<bool>) {
        self.0.check(host, ValueKind::Date)
    }

    fn from_value(v: JsValue) -> (r: JsDate) {
        JsDate(v)
    }
}

impl NapiValueCheck for JsNull {
    open spec fn view_kind() -> ValueKind {
        ValueKind::Null
    }

    open spec fn handle(&self) -> JsValue {
        self.0
    }

    fn check(&self, host: &NapiHost) -> (r: NapiResult<bool>) {
        self.0.check(host, ValueKind::Null)
    }

    fn from_value(v: JsValue) -> (r: JsNull) {
        JsNull(v)
    }
}

impl NapiValueCheck for JsUndefined {
    open spec fn view_kind() -> ValueKind {
        ValueKind::Undefined
    }

    open spec fn handle(&self) -> JsValue {
        self.0
    }

    fn check(&self, host: &NapiHost) -> (r: NapiResult<bool>) {
        self.0.check(host, ValueKind::Undefined)
    }

    fn from_value(v: JsValue) -> (r: JsUndefined) {
        JsUndefined(v)
    }
}

impl NapiValueCheck for JsError {
    open spec fn view_kind() -> ValueKind {
        ValueKind::Error
    }

    open spec fn handle(&self) -> JsValue {
        self.0
    }

    fn check(&self, host: &NapiHost) -> (r: NapiResult<bool>) {
        self.0.check(host, ValueKind::Error)
    }

    fn from_value(v: JsValue) -> (r: JsError) {
        JsError(v)
    }
}

impl NapiValueCheck for JsGlobal {
    open spec fn view_kind() -> ValueKind {
        ValueKind::Object
    }

    open spec fn handle(&self) -> JsValue {
        self.0
    }

    fn check(&self, host: &NapiHost) -> (r: NapiResult<bool>) {
        self.0.check(host, ValueKind::Object)
    }

    fn from_value(v: JsValue) -> (r: JsGlobal) {
        JsGlobal(v)
    }
}

impl FromJsArgs for JsObject {
    open spec fn params() -> Seq<ValueKind> {
        seq![ValueKind::Object]
    }

    open spec fn handles(&self) -> Seq<JsValue> {
        seq![self.0]
    }

    fn len() -> (r: usize) {
        1
    }

    fn from_js_args(host: &NapiHost, args: &JsArgs) -> (r: NapiResult<JsObject>) {
        let mut kinds: Vec<ValueKind> = Vec::new();
        kinds.push(ValueKind::Object);
        assert(kinds@ =~= seq![ValueKind::Object]);
        let a = JsArgs::from_js_args(host, &args.0, &kinds)?;
        assert(a.0@.len() == 1);
        let v = JsObject(a.0[0]);
        assert(seq![v.0] =~= args.0@.take(1));
        Ok(v)
    }
}

impl ToJsArgs for JsObject {
    open spec fn handles(&self) -> Seq<JsValue> {
        seq![self.0]
    }

    fn to_js_args(self) -> (r: JsArgs) {
        let mut v: Vec<JsValue> = Vec::new();
        v.push(self.0);
        assert(v@ =~= seq![self.0]);
        JsArgs(v)
    }
}

impl FromJsArgs for JsString {
    open spec fn params() -> Seq<ValueKind> {
        seq![ValueKind::String]
    }

    open spec fn handles(&self) -> Seq<JsValue> {
        seq![self.0]
    }

    fn len() -> (r: usize) {
        1
    }

    fn from_js_args(host: &NapiHost, args: &JsArgs) -> (r: NapiResult<JsString>) {
        let mut kinds: Vec<ValueKind> = Vec::new();
        kinds.push(ValueKind::String);
        assert(kinds@ =~= seq![ValueKind::String]);
        let a = JsArgs::from_js_args(host, &args.0, &kinds)?;
        assert(a.0@.len() == 1);
        let v = JsString(a.0[0]);
        assert(seq![v.0] =~= args.0@.take(1));
        Ok(v)
    }
}

impl ToJsArgs for JsString {
    open spec fn handles(&self) -> Seq<JsValue> {
        seq![self.0]
    }

    fn to_js_args(self) -> (r: JsArgs) {
        let mut v: Vec<JsValue> = Vec::new();
        v.push(self.0);
        assert(v@ =~= seq![self.0]);
        JsArgs(v)
    }
}

impl FromJsArgs for JsSymbol {
    open spec fn params() -> Seq<ValueKind> {
        seq![ValueKind::Symbol]
    }

    open spec fn handles(&self) -> Seq<JsValue> {
        seq![self.0]
    }

    fn len() -> (r: usize) {
        1
    }

    fn from_js_args(host: &NapiHost, args: &JsArgs) -> (r: NapiResult<JsSymbol>) {
        let mut kinds: Vec<ValueKind> = Vec::new();
        kinds.push(ValueKind::Symbol);
        assert(kinds@ =~= seq![ValueKind::Symbol]);
        let a = JsArgs::from_js_args(host, &args.0, &kinds)?;
        assert(a.0@.len() == 1);
        let v = JsSymbol(a.0[0]);
        assert(seq![v.0] =~= args.0@.take(1));
        Ok(v)
    }
}

impl ToJsArgs for JsSymbol {
    open spec fn handles(&self) -> Seq<JsValue> {
        seq![self.0]
    }

    fn to_js_args(self) -> (r: JsArgs) {
        let mut v: Vec<JsValue> = Vec::new();
        v.push(self.0);
        assert(v@ =~= seq![self.0]);
        JsArgs(v)
    }
}

impl FromJsArgs for JsArray {
    open spec fn params() -> Seq<ValueKind> {
        seq![ValueKind::Array]
    }

    open spec fn handles(&self) -> Seq<JsValue> {
        seq![self.0]
    }

    fn len() -> (r: usize) {
        1
    }

    fn from_js_args(host: &NapiHost, args: &JsArgs) -> (r: NapiResult<JsArray>) {
        let mut kinds: Vec<ValueKind> = Vec::new();
        kinds.push(ValueKind::Array);
        assert(kinds@ =~= seq![ValueKind::Array]);
        let a = JsArgs::from_js_args(host, &args.0, &kinds)?;
        assert(a.0@.len() == 1);
        let v = JsArray(a.0[0]);
        assert(seq![v.0] =~= args.0@.take(1));
        Ok(v)
    }
}

impl ToJsArgs for JsArray {
    open spec fn handles(&self) -> Seq<JsValue> {
        seq![self.0]
    }

    fn to_js_args(self) -> (r: JsArgs) {
        let mut v: Vec<JsValue> = Vec::new();
        v.push(self.0);
        assert(v@ =~= seq![self.0]);
        JsArgs(v)
    }
}

impl FromJsArgs for JsNumber {
    open spec fn params() -> Seq<ValueKind> {
        seq![ValueKind::Number]
    }

    open spec fn handles(&self) -> Seq<JsValue> {
        seq![self.0]
    }

    fn len() -> (r: usize) {
        1
    }

    fn from_js_args(host: &NapiHost, args: &JsArgs) -> (r: NapiResult<JsNumber>) {
        let mut kinds: Vec<ValueKind> = Vec::new();
        kinds.push(ValueKind::Number);
        assert(kinds@ =~= seq![ValueKind::Number]);
        let a = JsArgs::from_js_args(host, &args.0, &kinds)?;
        assert(a.0@.len() == 1);
        let v = JsNumber(a.0[0]);
        assert(seq![v.0] =~= args.0@.take(1));
        Ok(v)
    }
}

impl ToJsArgs for JsNumber {
    open spec fn handles(&self) -> Seq<JsValue> {
        seq![self.0]
    }

    fn to_js_args(self) -> (r: JsArgs) {
        let mut v: Vec<JsValue> = Vec::new();
        v.push(self.0);
        assert(v@ =~= seq![self.0]);
        JsArgs(v)
    }
}

impl FromJsArgs for JsBoolean {
    open spec fn params() -> Seq<ValueKind> {
        seq![ValueKind::Boolean]
    }

    open spec fn handles(&self) -> Seq<JsValue> {
        seq![self.0]
    }

    fn len() -> (r: usize) {
        1
    }

    fn from_js_args(host: &NapiHost, args: &JsArgs) -> (r: NapiResult<JsBoolean>) {
        let mut kinds: Vec<ValueKind> = Vec::new();
        kinds.push(ValueKind::Boolean);
        assert(kinds@ =~= seq![ValueKind::Boolean]);
        let a = JsArgs::from_js_args(host, &args.0, &kinds)?;
        assert(a.0@.len() == 1);
        let v = JsBoolean(a.0[0]);
        assert(seq![v.0] =~= args.0@.take(1));
        Ok(v)
    }
}

impl ToJsArgs for JsBoolean {
    open spec fn handles(&self) -> Seq<JsValue> {
        seq![self.0]
    }

    fn to_js_args(self) -> (r: JsArgs) {
        let mut v: Vec<JsValue> = Vec::new();
        v.push(self.0);
        assert(v@ =~= seq![self.0]);
        JsArgs(v)
    }
}

impl FromJsArgs for JsFunction {
    open spec fn params() -> Seq<ValueKind> {
        seq![ValueKind::Function]
    }

    open spec fn handles(&self) -> Seq<JsValue> {
        seq![self.0]
    }

    fn len() -> (r: usize) {
        1
    }

    fn from_js_args(host: &NapiHost, args: &JsArgs) -> (r: NapiResult<JsFunction>) {
        let mut kinds: Vec<ValueKind> = Vec::new();
        kinds.push(ValueKind::Function);
        assert(kinds@ =~= seq![ValueKind::Function]);
        let a = JsArgs::from_js_args(host, &args.0, &kinds)?;
        assert(a.0@.len() == 1);
        let v = JsFunction(a.0[0]);
        assert(seq![v.0] =~= args.0@.take(1));
        Ok(v)
    }
}

impl ToJsArgs for JsFunction {
    open spec fn handles(&self) -> Seq<JsValue> {
        seq![self.0]
    }

    fn to_js_args(self) -> (r: JsArgs) {
        let mut v: Vec<JsValue> = Vec::new();
        v.push(self.0);
        assert(v@ =~= seq![self.0]);
        JsArgs(v)
    }
}

impl FromJsArgs for JsBigInt {
    open spec fn params() -> Seq<ValueKind> {
        seq![ValueKind::Bigint]
    }

    open spec fn handles(&self) -> Seq<JsValue> {
        seq![self.0]
    }

    fn len() -> (r: usize) {
        1
    }

    fn from_js_args(host: &NapiHost, args: &JsArgs) -> (r: NapiResult<JsBigInt>) {
        let mut kinds: Vec<ValueKind> = Vec::new();
        kinds.push(ValueKind::Bigint);
        assert(kinds@ =~= seq![ValueKind::Bigint]);
        let a = JsArgs::from_js_args(host, &args.0, &kinds)?;
        assert(a.0@.len() == 1);
        let v = JsBigInt(a.0[0]);
        assert(seq![v.0] =~= args.0@.take(1));
        Ok(v)
    }
}

impl ToJsArgs for JsBigInt {
    open spec fn handles(&self) -> Seq<JsValue> {
        seq![self.0]
    }

    fn to_js_args(self) -> (r: JsArgs) {
        let mut v: Vec<JsValue> = Vec::new();
        v.push(self.0);
        assert(v@ =~= seq![self.0]);
        JsArgs(v)
    }
}

} // verus!
