//! Binary data: array buffers, the typed arrays and data views over them, byte buffers,
//! and values carrying native data.
use vstd::prelude::*;
use crate::exception::{throw_kind, thrown};
use crate::host::{
    created, made_with_finalizer, plain, Data, Entity, ErrorKind, HostView, JsValue, NapiEnv, NapiHost, Payload,
    ValueView,
};
use crate::kinds::{element_size, NapiTypedarrayType};
use crate::status::{NapiResult, NapiStatus};
use crate::value::{JsArrayBuffer, JsBuffer, JsDataView, JsDate, JsExternal, JsTypedArray};

verus! {

/// A copy of `b`.
pub fn copy_bytes(b: &[u8]) -> (r: Vec<u8>)
    ensures
        r@ == b@,
{
    let mut r: Vec<u8> = Vec::new();
    let mut i: usize = 0;
    while i < b.len()
        invariant
            i <= b@.len(),
            r@ == b@.take(i as int),
        decreases b@.len() - i,
    {
        r.push(b[i]);
        i = i + 1;
        assert(r@ =~= b@.take(i as int));
    }
    assert(b@.take(b@.len() as int) =~= b@);
    r
}

/// `n` zero bytes.
fn zeros(n: usize) -> (r: Vec<u8>)
    ensures
        r@ == Seq::new(n as nat, |i: int| 0u8),
{
    let mut r: Vec<u8> = Vec::new();
    let mut i: usize = 0;
    while i < n
        invariant
            i <= n,
            r@ == Seq::new(i as nat, |j: int| 0u8),
        decreases n - i,
    {
        r.push(0u8);
        i = i + 1;
        assert(r@ =~= Seq::new(i as nat, |j: int| 0u8));
    }
    r
}

/// The bytes and detached flag of the array buffer behind `v`: `InvalidArg` for a dead
/// handle, `ArraybufferExpected` for another kind of value.
pub open spec fn arraybuffer_result(h: HostView, v: JsValue) -> NapiResult<(Seq<u8>, bool)> {
    if !h.valid(v) {
        Err(NapiStatus::InvalidArg)
    } else {
        match h.data(v.raw) {
            Data::ArrayBuffer(b, d) => Ok((b, d)),
            _ => Err(NapiStatus::ArraybufferExpected),
        }
    }
}

/// A view of `count` units of `unit` bytes at `offset` fits in `len` bytes, with the
/// offset a multiple of the unit.
pub open spec fn view_fits(len: nat, offset: nat, count: nat, unit: nat) -> bool {
    &&& offset % unit == 0
    &&& offset + count * unit <= len
}

/// What making a view does to the host: a new view value when it fits; otherwise a
/// `RangeError` thrown, reported as `PendingException`.
pub open spec fn view_made(
    before: HostView,
    after: HostView,
    r: NapiResult<JsValue>,
    fits: bool,
    d: Data,
) -> bool {
    if fits {
        r matches Ok(v) && created(before, after, v, d)
    } else {
        r == Err::<JsValue, NapiStatus>(NapiStatus::PendingException) && exists|msg: Seq<char>|
            thrown(before, after, ErrorKind::RangeError, msg)
    }
}

fn buffer_bytes(host: &NapiHost, v: JsValue) -> (r: NapiResult<(usize, usize)>)
    requires
        host@.wf(),
    ensures
        match arraybuffer_result(host@, v) {
            Err(e) => r == Err::<(usize, usize), NapiStatus>(e),
            Ok((b, _)) => (r matches Ok((t, n)) && t == host@.target(v.raw) && n == b.len()),
        },
{
    let t = host.target_of(v)?;
    match &host.entity(t).payload {
        Payload::ArrayBuffer(b, _) => Ok((t, b.len())),
        _ => Err(NapiStatus::ArraybufferExpected),
    }
}

impl JsArrayBuffer {
    /// A new array buffer holding a copy of `bytes`.
    pub fn new(env: NapiEnv, host: &mut NapiHost, bytes: &[u8]) -> (r: NapiResult<JsArrayBuffer>)
        requires
            old(host)@.wf(),
        ensures
            final(host)@.wf(),
            old(host)@.succeeds(final(host)@),
            r matches Ok(a) && created(old(host)@, final(host)@, a.0, Data::ArrayBuffer(bytes@, false)),
    {
        let copy = copy_bytes(bytes);
        Ok(JsArrayBuffer(host.create(plain(Payload::ArrayBuffer(copy, false)))))
    }

    /// A copy of the bytes of the array buffer.
    pub fn get_arraybuffer_info(&self, host: &NapiHost) -> (r: NapiResult<Vec<u8>>)
        requires
            host@.wf(),
        ensures
            match arraybuffer_result(host@, self.0) {
                Err(e) => r == Err::<Vec<u8>, NapiStatus>(e),
                Ok((b, _)) => (r matches Ok(v) && v@ == b),
            },
    {
        let t = host.target_of(self.0)?;
        match &host.entity(t).payload {
            Payload::ArrayBuffer(b, _) => Ok(copy_bytes(b.as_slice())),
            _ => Err(NapiStatus::ArraybufferExpected),
        }
    }

    /// Detaches the array buffer: its bytes are released and its length becomes 0. A
    /// buffer detached before cannot be detached again (`DetachableArraybufferExpected`).
    pub fn detach(&mut self, host: &mut NapiHost) -> (r: NapiResult<()>)
        requires
            old(host)@.wf(),
        ensures
            *final(self) == *old(self),
            final(host)@.wf(),
            old(host)@.succeeds(final(host)@),
            match arraybuffer_result(old(host)@, old(self).0) {
                Err(e) => r == Err::<(), NapiStatus>(e) && final(host)@ == old(host)@,
                Ok((_, true)) => r == Err::<(), NapiStatus>(NapiStatus::DetachableArraybufferExpected)
                    && final(host)@ == old(host)@,
                Ok((_, false)) => {
                    let t = old(host)@.target(old(self).0.raw);
                    &&& r == Ok::<(), NapiStatus>(())
                    &&& final(host)@ == (HostView {
                        values: old(host)@.values.update(
                            t as int,
                            ValueView {
                                data: Data::ArrayBuffer(Seq::<u8>::empty(), true),
                                ..old(host)@.values[t as int]
                            },
                        ),
                        ..old(host)@
                    })
                },
            },
    {
        let t = host.target_of(self.0)?;
        let e = host.entity(t);
        let frozen = e.frozen;
        let sealed = e.sealed;
        match &e.payload {
            Payload::ArrayBuffer(_, true) => Err(NapiStatus::DetachableArraybufferExpected),
            Payload::ArrayBuffer(_, false) => {
                host.set_value(
                    t,
                    Entity {
                        payload: Payload::ArrayBuffer(Vec::new(), true),
                        frozen,
                        sealed,
                        collected: false,
                    },
                );
                assert(host@.values[t as int].data == Data::ArrayBuffer(Seq::<u8>::empty(), true));
                assert(host@ =~= (HostView {
                    values: old(host)@.values.update(
                        t as int,
                        ValueView {
                            data: Data::ArrayBuffer(Seq::<u8>::empty(), true),
                            ..old(host)@.values[t as int]
                        },
                    ),
                    ..old(host)@
                }));
                Ok(())
            },
            _ => Err(NapiStatus::ArraybufferExpected),
        }
    }

    /// Whether the value is a detached array buffer; `false` for any other value.
    /// `InvalidArg` for a dead handle.
    pub fn is_detached(&self, host: &NapiHost) -> (r: NapiResult<bool>)
        requires
            host@.wf(),
        ensures
            !host@.valid(self.0) ==> r == Err::<bool, NapiStatus>(NapiStatus::InvalidArg),
            host@.valid(self.0) ==> r == Ok::<bool, NapiStatus>(
                host@.data(self.0.raw) matches Data::ArrayBuffer(_, true),
            ),
    {
        let t = host.target_of(self.0)?;
        match &host.entity(t).payload {
            Payload::ArrayBuffer(_, d) => Ok(*d),
            _ => Ok(false),
        }
    }

    /// A data view of `length` bytes from `offset`. One that does not fit in the buffer
    /// throws a `RangeError` and fails with `PendingException`.
    pub fn view(&self, host: &mut NapiHost, offset: usize, length: usize) -> (r: NapiResult<JsDataView>)
        requires
            old(host)@.wf(),
        ensures
            final(host)@.wf(),
            old(host)@.succeeds(final(host)@),
            match arraybuffer_result(old(host)@, self.0) {
                Err(e) => r == Err::<JsDataView, NapiStatus>(e) && final(host)@ == old(host)@,
                Ok((b, _)) => view_made(
                    old(host)@,
                    final(host)@,
                    match r {
                        Ok(v) => Ok::<JsValue, NapiStatus>(v.0),
                        Err(e) => Err(e),
                    },
                    view_fits(b.len(), offset as nat, length as nat, 1),
                    Data::DataView(old(host)@.target(self.0.raw), offset, length),
                ),
            },
    {
        let (t, n) = buffer_bytes(host, self.0)?;
        if offset > n || length > n - offset {
            let _ = throw_kind(host, ErrorKind::RangeError, "offset and length out of range");
            return Err(NapiStatus::PendingException);
        }
        Ok(JsDataView(host.create(plain(Payload::DataView(t, offset, length)))))
    }

    /// A typed array of `length` elements of type `typed` from `offset`. One that does not
    /// fit in the buffer, or whose offset is not a multiple of the element size, throws a
    /// `RangeError` and fails with `PendingException`.
    pub fn typedarray(
        &self,
        host: &mut NapiHost,
        typed: NapiTypedarrayType,
        offset: usize,
        length: usize,
    ) -> (r: NapiResult<JsTypedArray>)
        requires
            old(host)@.wf(),
        ensures
            final(host)@.wf(),
            old(host)@.succeeds(final(host)@),
            match arraybuffer_result(old(host)@, self.0) {
                Err(e) => r == Err::<JsTypedArray, NapiStatus>(e) && final(host)@ == old(host)@,
                Ok((b, _)) => view_made(
                    old(host)@,
                    final(host)@,
                    match r {
                        Ok(v) => Ok::<JsValue, NapiStatus>(v.0),
                        Err(e) => Err(e),
                    },
                    view_fits(b.len(), offset as nat, length as nat, element_size(typed)),
                    Data::TypedArray(typed, old(host)@.target(self.0.raw), offset, length),
                ),
            },
    {
        let (t, n) = buffer_bytes(host, self.0)?;
        let unit = typed.element_size();
        let fits = if offset % unit == 0 && offset <= n {
            let q = (n - offset) / unit;
            proof {
                let a: int = n as int - offset as int;
                let u: int = unit as int;
                let l: int = length as int;
                assert(q as int == a / u);
                if length <= q {
                    assert(l * u <= a) by (nonlinear_arith)
                        requires
                            l <= a / u,
                            u > 0,
                            a >= 0,
                    ;
                } else {
                    assert(l * u > a) by (nonlinear_arith)
                        requires
                            l > a / u,
                            u > 0,
                            a >= 0,
                    ;
                }
            }
            length <= q
        } else {
            false
        };
        if !fits {
            let _ = throw_kind(host, ErrorKind::RangeError, "offset and length out of range");
            return Err(NapiStatus::PendingException);
        }
        Ok(JsTypedArray(host.create(plain(Payload::TypedArray(typed, t, offset, length)))))
    }
}

impl JsDataView {
    /// The buffer value, byte offset and byte length of the data view: `InvalidArg` for a
    /// dead handle or a value that is no data view.
    pub fn info(&self, host: &NapiHost) -> (r: NapiResult<(usize, usize, usize)>)
        requires
            host@.wf(),
        ensures
            !host@.valid(self.0) ==> r == Err::<(usize, usize, usize), NapiStatus>(
                NapiStatus::InvalidArg,
            ),
            host@.valid(self.0) ==> match host@.data(self.0.raw) {
                Data::DataView(b, o, l) => r == Ok::<(usize, usize, usize), NapiStatus>((b, o, l)),
                _ => r == Err::<(usize, usize, usize), NapiStatus>(NapiStatus::InvalidArg),
            },
    {
        let t = host.target_of(self.0)?;
        match &host.entity(t).payload {
            Payload::DataView(b, o, l) => Ok((*b, *o, *l)),
            _ => Err(NapiStatus::InvalidArg),
        }
    }
}

/// The bytes of the byte buffer behind `v`: `InvalidArg` for a dead handle or another kind
/// of value.
pub open spec fn buffer_result(h: HostView, v: JsValue) -> NapiResult<Seq<u8>> {
    if !h.valid(v) {
        Err(NapiStatus::InvalidArg)
    } else {
        match h.data(v.raw) {
            Data::Buffer(b) => Ok(b),
            _ => Err(NapiStatus::InvalidArg),
        }
    }
}

impl JsBuffer {
    /// A new byte buffer of `length` zero bytes.
    pub fn create(env: NapiEnv, host: &mut NapiHost, length: usize) -> (r: NapiResult<JsBuffer>)
        requires
            old(host)@.wf(),
        ensures
            final(host)@.wf(),
            old(host)@.succeeds(final(host)@),
            r matches Ok(b) && created(
                old(host)@,
                final(host)@,
                b.0,
                Data::Buffer(Seq::new(length as nat, |i: int| 0u8)),
            ),
    {
        let bytes = zeros(length);
        Ok(JsBuffer(host.create(plain(Payload::Buffer(bytes)))))
    }

    /// A new byte buffer holding a copy of `data`.
    pub fn create_copy(env: NapiEnv, host: &mut NapiHost, data: &[u8]) -> (r: NapiResult<JsBuffer>)
        requires
            old(host)@.wf(),
        ensures
            final(host)@.wf(),
            old(host)@.succeeds(final(host)@),
            r matches Ok(b) && created(old(host)@, final(host)@, b.0, Data::Buffer(data@)),
    {
        let bytes = copy_bytes(data);
        Ok(JsBuffer(host.create(plain(Payload::Buffer(bytes)))))
    }

    /// A copy of the bytes of the buffer.
    pub fn get(&self, host: &NapiHost) -> (r: NapiResult<Vec<u8>>)
        requires
            host@.wf(),
        ensures
            match buffer_result(host@, self.0) {
                Err(e) => r == Err::<Vec<u8>, NapiStatus>(e),
                Ok(b) => (r matches Ok(v) && v@ == b),
            },
    {
        let t = host.target_of(self.0)?;
        match &host.entity(t).payload {
            Payload::Buffer(b) => Ok(copy_bytes(b.as_slice())),
            _ => Err(NapiStatus::InvalidArg),
        }
    }

    /// The length of the buffer in bytes.
    pub fn len(&self, host: &NapiHost) -> (r: NapiResult<usize>)
        requires
            host@.wf(),
        ensures
            match buffer_result(host@, self.0) {
                Err(e) => r == Err::<usize, NapiStatus>(e),
                Ok(b) => r == Ok::<usize, NapiStatus>(b.len() as usize),
            },
    {
        let t = host.target_of(self.0)?;
        match &host.entity(t).payload {
            Payload::Buffer(b) => Ok(b.len()),
            _ => Err(NapiStatus::InvalidArg),
        }
    }

    /// Whether the buffer holds no byte.
    pub fn is_empty(&self, host: &NapiHost) -> (r: NapiResult<bool>)
        requires
            host@.wf(),
        ensures
            match buffer_result(host@, self.0) {
                Err(e) => r == Err::<bool, NapiStatus>(e),
                Ok(b) => r == Ok::<bool, NapiStatus>(b.len() == 0),
            },
    {
        let t = host.target_of(self.0)?;
        match &host.entity(t).payload {
            Payload::Buffer(b) => Ok(b.len() == 0),
            _ => Err(NapiStatus::InvalidArg),
        }
    }
}

impl JsExternal {
    /// A new value carrying the native token `data`, with a finalizer attached to it;
    /// returns the value and the finalizer's id.
    pub fn new(env: NapiEnv, host: &mut NapiHost, data: u64) -> (r: NapiResult<(JsExternal, usize)>)
        requires
            old(host)@.wf(),
        ensures
            final(host)@.wf(),
            old(host)@.succeeds(final(host)@),
            r matches Ok((x, f)) && f == old(host)@.finalizers.len() && made_with_finalizer(
                old(host)@,
                final(host)@,
                x.0,
                Data::External(data),
            ),
    {
        let ghost before = host@;
        let v = host.create(plain(Payload::External(data)));
        let ghost mid = host@;
        let t = host.target_of(v)?;
        let f = host.add_finalizer(t);
        assert(created(before, mid, v, Data::External(data)));
        assert(t == before.values.len());
        Ok((JsExternal(v), f))
    }

    /// A new array buffer over the native bytes `bytes`, with a finalizer that releases
    /// them when the host collects it; returns the buffer and the finalizer's id.
    pub fn arraybuffer(env: NapiEnv, host: &mut NapiHost, bytes: &[u8]) -> (r: NapiResult<(JsArrayBuffer, usize)>)
        requires
            old(host)@.wf(),
        ensures
            final(host)@.wf(),
            old(host)@.succeeds(final(host)@),
            r matches Ok((b, f)) && f == old(host)@.finalizers.len() && made_with_finalizer(
                old(host)@,
                final(host)@,
                b.0,
                Data::ArrayBuffer(bytes@, false),
            ),
    {
        let ghost before = host@;
        let copy = copy_bytes(bytes);
        let v = host.create(plain(Payload::ArrayBuffer(copy, false)));
        let t = host.target_of(v)?;
        let f = host.add_finalizer(t);
        assert(t == before.values.len());
        Ok((JsArrayBuffer(v), f))
    }

    /// A new byte buffer over the native bytes `bytes`, with a finalizer that releases them
    /// when the host collects it; returns the buffer and the finalizer's id.
    pub fn buffer(env: NapiEnv, host: &mut NapiHost, bytes: &[u8]) -> (r: NapiResult<(JsBuffer, usize)>)
        requires
            old(host)@.wf(),
        ensures
            final(host)@.wf(),
            old(host)@.succeeds(final(host)@),
            r matches Ok((b, f)) && f == old(host)@.finalizers.len() && made_with_finalizer(
                old(host)@,
                final(host)@,
                b.0,
                Data::Buffer(bytes@),
            ),
    {
        let ghost before = host@;
        let copy = copy_bytes(bytes);
        let v = host.create(plain(Payload::Buffer(copy)));
        let t = host.target_of(v)?;
        let f = host.add_finalizer(t);
        assert(t == before.values.len());
        Ok((JsBuffer(v), f))
    }

    /// The native token the value carries: `InvalidArg` for a dead handle or another kind
    /// of value.
    pub fn get(&self, host: &NapiHost) -> (r: NapiResult<u64>)
        requires
            host@.wf(),
        ensures
            !host@.valid(self.0) ==> r == Err::<u64, NapiStatus>(NapiStatus::InvalidArg),
            host@.valid(self.0) ==> match host@.data(self.0.raw) {
                Data::External(x) => r == Ok::<u64, NapiStatus>(x),
                _ => r == Err::<u64, NapiStatus>(NapiStatus::InvalidArg),
            },
    {
        let t = host.target_of(self.0)?;
        match &host.entity(t).payload {
            Payload::External(x) => Ok(*x),
            _ => Err(NapiStatus::InvalidArg),
        }
    }
}

impl JsDate {
    /// A new date at `millis` milliseconds from the epoch.
    pub fn from_millis(env: NapiEnv, host: &mut NapiHost, millis: i64) -> (r: NapiResult<JsDate>)
        requires
            old(host)@.wf(),
        ensures
            final(host)@.wf(),
            old(host)@.succeeds(final(host)@),
            r matches Ok(d) && created(old(host)@, final(host)@, d.0, Data::Date(millis)),
    {
        Ok(JsDate(host.create(plain(Payload::Date(millis)))))
    }

    /// The milliseconds from the epoch of the date: `DateExpected` for another kind of
    /// value, `InvalidArg` for a dead handle.
    pub fn millis(&self, host: &NapiHost) -> (r: NapiResult<i64>)
        requires
            host@.wf(),
        ensures
            !host@.valid(self.0) ==> r == Err::<i64, NapiStatus>(NapiStatus::InvalidArg),
            host@.valid(self.0) ==> match host@.data(self.0.raw) {
                Data::Date(ms) => r == Ok::<i64, NapiStatus>(ms),
                _ => r == Err::<i64, NapiStatus>(NapiStatus::DateExpected),
            },
    {
        let t = host.target_of(self.0)?;
        match &host.entity(t).payload {
            Payload::Date(ms) => Ok(*ms),
            _ => Err(NapiStatus::DateExpected),
        }
    }
}

impl NapiEnv {
    /// A new byte buffer of `length` zero bytes.
    pub fn buffer(&self, host: &mut NapiHost, length: usize) -> (r: NapiResult<JsBuffer>)
        requires
            old(host)@.wf(),
        ensures
            final(host)@.wf(),
            old(host)@.succeeds(final(host)@),
            r matches Ok(b) && created(
                old(host)@,
                final(host)@,
                b.0,
                Data::Buffer(Seq::new(length as nat, |i: int| 0u8)),
            ),
    {
        JsBuffer::create(*self, host, length)
    }

    /// A new byte buffer holding a copy of `data`.
    pub fn buffer_copy(&self, host: &mut NapiHost, data: &[u8]) -> (r: NapiResult<JsBuffer>)
        requires
            old(host)@.wf(),
        ensures
            final(host)@.wf(),
            old(host)@.succeeds(final(host)@),
            r matches Ok(b) && created(old(host)@, final(host)@, b.0, Data::Buffer(data@)),
    {
        JsBuffer::create_copy(*self, host, data)
    }

    /// A new array buffer holding a copy of `bytes`.
    pub fn arraybuffer(&self, host: &mut NapiHost, bytes: &[u8]) -> (r: NapiResult<JsArrayBuffer>)
        requires
            old(host)@.wf(),
        ensures
            final(host)@.wf(),
            old(host)@.succeeds(final(host)@),
            r matches Ok(a) && created(old(host)@, final(host)@, a.0, Data::ArrayBuffer(bytes@, false)),
    {
        JsArrayBuffer::new(*self, host, bytes)
    }

    /// A new value carrying the native token `data`, with a finalizer attached.
    pub fn external(&self, host: &mut NapiHost, data: u64) -> (r: NapiResult<(JsExternal, usize)>)
        requires
            old(host)@.wf(),
        ensures
            final(host)@.wf(),
            old(host)@.succeeds(final(host)@),
            r matches Ok((x, f)) && f == old(host)@.finalizers.len() && made_with_finalizer(
                old(host)@,
                final(host)@,
                x.0,
                Data::External(data),
            ),
    {
        JsExternal::new(*self, host, data)
    }
}

} // verus!
