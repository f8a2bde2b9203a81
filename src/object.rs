//! Objects and arrays: properties keyed by index or name, and the integrity levels
//! (sealed, frozen) that stop them from changing.
use vstd::prelude::*;
use crate::exception::{contains_nul, has_nul};
use crate::host::{
    own_names, last_write, copy_payload, created, handle_made, plain, property, type_of, Data, Entity, HostView, JsValue,
    Key, KeyView, NapiEnv, NapiHost, Payload, PropView, ValueView, UNDEFINED_SLOT,
};
use crate::kinds::{NapiKeyCollectionMode, NapiKeyConversion, NapiKeyFilter, NapiValuetype};
use crate::status::{NapiResult, NapiStatus};
use crate::value::{JsArray, JsObject, JsString};

verus! {

/// Values of this data carry properties.
pub open spec fn has_properties(d: Data) -> bool {
    type_of(d) == NapiValuetype::Object || d is Function
}

/// The slot of the object behind `v`: `InvalidArg` for a dead handle, `ObjectExpected`
/// for a value that carries no properties.
pub open spec fn object_result(h: HostView, v: JsValue) -> NapiResult<usize> {
    if !h.valid(v) {
        Err(NapiStatus::InvalidArg)
    } else if !has_properties(h.data(v.raw)) {
        Err(NapiStatus::ObjectExpected)
    } else {
        Ok(h.target(v.raw))
    }
}

/// A read of property `key` of the value in `owner` made handle `r` in `after`: to the
/// property's value, or to `undefined` when it has none.
pub open spec fn read_back(before: HostView, after: HostView, owner: usize, key: KeyView, r: JsValue) -> bool {
    match property(before, owner, key) {
        Some(v) => handle_made(before, after, r, v),
        None => handle_made(before, after, r, UNDEFINED_SLOT),
    }
}

/// The state after writing `value` to property `key` of the value in `owner`: nothing
/// changes on a frozen value, nor on a sealed one that lacks the property; otherwise the
/// write is logged, and an array grows to cover a written index.
pub open spec fn written(before: HostView, after: HostView, owner: usize, key: KeyView, value: usize) -> bool {
    after == after_write(before, owner, key, value)
}

/// The state after writing `value` to property `key` of the value in `owner` (see
/// `written`).
pub open spec fn after_write(before: HostView, owner: usize, key: KeyView, value: usize) -> HostView {
    let o = before.values[owner as int];
    if o.frozen || (o.sealed && property(before, owner, key) is None) {
        before
    } else {
        let logged = HostView {
            props: before.props.push(PropView { owner, key, value: Some(value) }),
            ..before
        };
        match (o.data, key) {
            (Data::Array(n), KeyView::Index(i)) => if n <= i && i < u32::MAX {
                HostView {
                    values: logged.values.update(
                        owner as int,
                        ValueView { data: Data::Array((i + 1) as u32), ..o },
                    ),
                    ..logged
                }
            } else {
                logged
            },
            _ => logged,
        }
    }
}

/// The state after deleting property `key` of the value in `owner`, and the answer: a
/// sealed or frozen value keeps its properties and answers whether it lacked this one;
/// otherwise the deletion is logged and succeeds.
pub open spec fn deleted(before: HostView, after: HostView, owner: usize, key: KeyView, r: bool) -> bool {
    let o = before.values[owner as int];
    if o.sealed || o.frozen {
        after == before && r == (property(before, owner, key) is None)
    } else {
        r && after == (HostView {
            props: before.props.push(PropView { owner, key, value: None }),
            ..before
        })
    }
}

pub(crate) fn object_target(host: &NapiHost, v: JsValue) -> (r: NapiResult<usize>)
    requires
        host@.wf(),
    ensures
        r == object_result(host@, v),
{
    let t = host.target_of(v)?;
    match &host.entity(t).payload {
        Payload::Undefined | Payload::Null | Payload::Bool(_) | Payload::Number(_)
        | Payload::Text(_) | Payload::Symbol(_) | Payload::External(_) | Payload::BigInt(_) => Err(
            NapiStatus::ObjectExpected,
        ),
        _ => Ok(t),
    }
}

fn read_prop(host: &mut NapiHost, v: JsValue, key: Key) -> (r: NapiResult<JsValue>)
    requires
        old(host)@.wf(),
    ensures
        final(host)@.wf(),
        old(host)@.succeeds(final(host)@),
        match object_result(old(host)@, v) {
            Err(e) => r == Err::<JsValue, NapiStatus>(e) && final(host)@ == old(host)@,
            Ok(t) => (r matches Ok(x) && read_back(old(host)@, final(host)@, t, key@, x)),
        },
{
    let t = object_target(host, v)?;
    match host.find_prop(t, &key) {
        Some(Some(x)) => {
            proof {
                lemma_last_write_in(host@, t, key@);
            }
            Ok(host.new_handle(x))
        },
        _ => Ok(host.new_handle(UNDEFINED_SLOT)),
    }
}

/// A write found by `last_write` is one of the logged writes.
proof fn lemma_last_write_in(h: HostView, owner: usize, key: KeyView)
    requires
        h.wf(),
    ensures
        property(h, owner, key) matches Some(v) ==> v < h.values.len() && !h.values[v as int].collected,
{
    lemma_last_write_member(h.props, owner, key);
    if let Some(p) = crate::host::last_write(h.props, owner, key) {
        let i = choose|i: int| 0 <= i < h.props.len() && h.props[i] == p;
        assert(h.props[i].value == p.value);
    }
}

proof fn lemma_last_write_member(props: Seq<PropView>, owner: usize, key: KeyView)
    ensures
        crate::host::last_write(props, owner, key) matches Some(p) ==> exists|i: int|
            0 <= i < props.len() && props[i] == p,
    decreases props.len(),
{
    if props.len() > 0 {
        if !(props.last().owner == owner && props.last().key == key) {
            lemma_last_write_member(props.drop_last(), owner, key);
            if let Some(p) = crate::host::last_write(props.drop_last(), owner, key) {
                let i = choose|i: int| 0 <= i < props.drop_last().len() && props.drop_last()[i] == p;
                assert(props[i] == p);
            }
        } else {
            assert(props[props.len() - 1] == props.last());
        }
    }
}

fn has_prop(host: &NapiHost, v: JsValue, key: Key) -> (r: NapiResult<bool>)
    requires
        host@.wf(),
    ensures
        match object_result(host@, v) {
            Err(e) => r == Err::<bool, NapiStatus>(e),
            Ok(t) => r == Ok::<bool, NapiStatus>(property(host@, t, key@) is Some),
        },
{
    let t = object_target(host, v)?;
    match host.find_prop(t, &key) {
        Some(Some(_)) => Ok(true),
        _ => Ok(false),
    }
}

/// Writes `value` to property `key` of the value in `owner`.
pub(crate) fn write_slot(host: &mut NapiHost, owner: usize, key: Key, value: usize)
    requires
        old(host)@.wf(),
        owner < old(host)@.values.len(),
        !old(host)@.values[owner as int].collected,
        value < old(host)@.values.len(),
        !old(host)@.values[value as int].collected,
    ensures
        final(host)@.wf(),
        old(host)@.succeeds(final(host)@),
        final(host)@ == after_write(old(host)@, owner, key@, value),
        final(host)@.values.len() == old(host)@.values.len(),
        forall|i: int|
            0 <= i < old(host)@.values.len() ==> final(host)@.values[i].collected == old(
                host,
            )@.values[i].collected,
{
    let e = host.entity(owner);
    let frozen = e.frozen;
    let sealed = e.sealed;
    let exists = match host.find_prop(owner, &key) {
        Some(Some(_)) => true,
        _ => false,
    };
    if frozen || (sealed && !exists) {
        return;
    }
    let grow: Option<u32> = match (&e.payload, &key) {
        (Payload::Array(n), Key::Index(i)) => if *n <= *i && *i < u32::MAX {
            Some(*i + 1)
        } else {
            None
        },
        _ => None,
    };
    let ghost kv = key@;
    host.add_prop(owner, key, Some(value));
    if let Some(len) = grow {
        let ghost logged = host@;
        host.set_value(owner, Entity { payload: Payload::Array(len), frozen, sealed, collected: false });
        assert(host@.values =~= logged.values.update(
            owner as int,
            ValueView { data: Data::Array(len), ..old(host)@.values[owner as int] },
        ));
    }
}

pub(crate) fn write_prop(host: &mut NapiHost, v: JsValue, key: Key, value: JsValue) -> (r: NapiResult<()>)
    requires
        old(host)@.wf(),
    ensures
        final(host)@.wf(),
        old(host)@.succeeds(final(host)@),
        match object_result(old(host)@, v) {
            Err(e) => r == Err::<(), NapiStatus>(e) && final(host)@ == old(host)@,
            Ok(t) => if !old(host)@.valid(value) {
                r == Err::<(), NapiStatus>(NapiStatus::InvalidArg) && final(host)@ == old(host)@
            } else {
                r == Ok::<(), NapiStatus>(()) && written(
                    old(host)@,
                    final(host)@,
                    t,
                    key@,
                    old(host)@.target(value.raw),
                )
            },
        },
{
    let t = object_target(host, v)?;
    let x = host.target_of(value)?;
    write_slot(host, t, key, x);
    Ok(())
}

fn delete_prop(host: &mut NapiHost, v: JsValue, key: Key) -> (r: NapiResult<bool>)
    requires
        old(host)@.wf(),
    ensures
        final(host)@.wf(),
        old(host)@.succeeds(final(host)@),
        match object_result(old(host)@, v) {
            Err(e) => r == Err::<bool, NapiStatus>(e) && final(host)@ == old(host)@,
            Ok(t) => (r matches Ok(b) && deleted(old(host)@, final(host)@, t, key@, b)),
        },
{
    let t = object_target(host, v)?;
    let e = host.entity(t);
    if e.sealed || e.frozen {
        let absent = match host.find_prop(t, &key) {
            Some(Some(_)) => false,
            _ => true,
        };
        return Ok(absent);
    }
    host.add_prop(t, key, None);
    Ok(true)
}

/// Sets the integrity flags of the value behind `v`.
fn restrict(host: &mut NapiHost, v: JsValue, freeze: bool) -> (r: NapiResult<()>)
    requires
        old(host)@.wf(),
    ensures
        final(host)@.wf(),
        old(host)@.succeeds(final(host)@),
        match object_result(old(host)@, v) {
            Err(e) => r == Err::<(), NapiStatus>(e) && final(host)@ == old(host)@,
            Ok(t) => r == Ok::<(), NapiStatus>(()) && final(host)@ == (HostView {
                values: old(host)@.values.update(
                    t as int,
                    ValueView {
                        sealed: true,
                        frozen: freeze || old(host)@.values[t as int].frozen,
                        ..old(host)@.values[t as int]
                    },
                ),
                ..old(host)@
            }),
        },
{
    let t = object_target(host, v)?;
    let e = host.entity(t);
    let p = copy_payload(&e.payload);
    let frozen = freeze || e.frozen;
    host.set_value(t, Entity { payload: p, frozen, sealed: true, collected: false });
    Ok(())
}

/// Turns `key` into a property key; `StringExpected` when it holds a NUL byte.
fn name_key(key: &str) -> (r: NapiResult<Key>)
    ensures
        has_nul(key@) ==> r == Err::<Key, NapiStatus>(NapiStatus::StringExpected),
        !has_nul(key@) ==> (r matches Ok(k) && k@ == KeyView::Name(key@)),
{
    if contains_nul(key) {
        return Err(NapiStatus::StringExpected);
    }
    Ok(Key::Name(key.to_owned()))
}

impl JsObject {
    /// A new empty object.
    pub fn new(env: NapiEnv, host: &mut NapiHost) -> (r: NapiResult<JsObject>)
        requires
            old(host)@.wf(),
        ensures
            final(host)@.wf(),
            old(host)@.succeeds(final(host)@),
            r matches Ok(o) && created(old(host)@, final(host)@, o.0, Data::Object),
    {
        Ok(JsObject(host.create(plain(Payload::Object))))
    }

    /// A new handle to element `index`, or to `undefined` when there is none.
    pub fn get_element(&mut self, host: &mut NapiHost, index: u32) -> (r: NapiResult<JsValue>)
        requires
            old(host)@.wf(),
        ensures
            *final(self) == *old(self),
            final(host)@.wf(),
            old(host)@.succeeds(final(host)@),
            match object_result(old(host)@, old(self).0) {
                Err(e) => r == Err::<JsValue, NapiStatus>(e) && final(host)@ == old(host)@,
                Ok(t) => (r matches Ok(x) && read_back(old(host)@, final(host)@, t, KeyView::Index(index), x)),
            },
    {
        read_prop(host, self.0, Key::Index(index))
    }

    /// Whether element `index` is present.
    pub fn has_element(&mut self, host: &NapiHost, index: u32) -> (r: NapiResult<bool>)
        requires
            host@.wf(),
        ensures
            *final(self) == *old(self),
            match object_result(host@, old(self).0) {
                Err(e) => r == Err::<bool, NapiStatus>(e),
                Ok(t) => r == Ok::<bool, NapiStatus>(property(host@, t, KeyView::Index(index)) is Some),
            },
    {
        has_prop(host, self.0, Key::Index(index))
    }

    /// Sets element `index` to the value behind `value`. A frozen object ignores the
    /// write, and a sealed one ignores it for an element it lacks.
    pub fn set_element(&mut self, host: &mut NapiHost, index: u32, value: JsValue) -> (r: NapiResult<()>)
        requires
            old(host)@.wf(),
        ensures
            *final(self) == *old(self),
            final(host)@.wf(),
            old(host)@.succeeds(final(host)@),
            match object_result(old(host)@, old(self).0) {
                Err(e) => r == Err::<(), NapiStatus>(e) && final(host)@ == old(host)@,
                Ok(t) => if !old(host)@.valid(value) {
                    r == Err::<(), NapiStatus>(NapiStatus::InvalidArg) && final(host)@ == old(host)@
                } else {
                    r == Ok::<(), NapiStatus>(()) && written(
                        old(host)@,
                        final(host)@,
                        t,
                        KeyView::Index(index),
                        old(host)@.target(value.raw),
                    )
                },
            },
    {
        write_prop(host, self.0, Key::Index(index), value)
    }

    /// Deletes element `index`, answering whether the object no longer has it.
    pub fn delete_element(&mut self, host: &mut NapiHost, index: u32) -> (r: NapiResult<bool>)
        requires
            old(host)@.wf(),
        ensures
            *final(self) == *old(self),
            final(host)@.wf(),
            old(host)@.succeeds(final(host)@),
            match object_result(old(host)@, old(self).0) {
                Err(e) => r == Err::<bool, NapiStatus>(e) && final(host)@ == old(host)@,
                Ok(t) => (r matches Ok(b) && deleted(old(host)@, final(host)@, t, KeyView::Index(index), b)),
            },
    {
        delete_prop(host, self.0, Key::Index(index))
    }

    /// A new handle to the property named `key`, or to `undefined` when there is none.
    /// `StringExpected` for a name holding a NUL byte.
    pub fn get_named_property(&self, host: &mut NapiHost, key: &str) -> (r: NapiResult<JsValue>)
        requires
            old(host)@.wf(),
        ensures
            final(host)@.wf(),
            old(host)@.succeeds(final(host)@),
            has_nul(key@) ==> r == Err::<JsValue, NapiStatus>(NapiStatus::StringExpected)
                && final(host)@ == old(host)@,
            !has_nul(key@) ==> match object_result(old(host)@, self.0) {
                Err(e) => r == Err::<JsValue, NapiStatus>(e) && final(host)@ == old(host)@,
                Ok(t) => (r matches Ok(x) && read_back(old(host)@, final(host)@, t, KeyView::Name(key@), x)),
            },
    {
        let k = name_key(key)?;
        read_prop(host, self.0, k)
    }

    /// Whether the property named `key` is present. `StringExpected` for a name holding a
    /// NUL byte.
    pub fn has_named_property(&self, host: &NapiHost, key: &str) -> (r: NapiResult<bool>)
        requires
            host@.wf(),
        ensures
            has_nul(key@) ==> r == Err::<bool, NapiStatus>(NapiStatus::StringExpected),
            !has_nul(key@) ==> match object_result(host@, self.0) {
                Err(e) => r == Err::<bool, NapiStatus>(e),
                Ok(t) => r == Ok::<bool, NapiStatus>(property(host@, t, KeyView::Name(key@)) is Some),
            },
    {
        let k = name_key(key)?;
        has_prop(host, self.0, k)
    }

    /// Sets the property named `key` to the value behind `value`. A frozen object ignores
    /// the write, and a sealed one ignores it for a property it lacks. `StringExpected` for
    /// a name holding a NUL byte.
    pub fn set_named_property(&mut self, host: &mut NapiHost, key: &str, value: JsValue) -> (r: NapiResult<()>)
        requires
            old(host)@.wf(),
        ensures
            *final(self) == *old(self),
            final(host)@.wf(),
            old(host)@.succeeds(final(host)@),
            has_nul(key@) ==> r == Err::<(), NapiStatus>(NapiStatus::StringExpected)
                && final(host)@ == old(host)@,
            !has_nul(key@) ==> match object_result(old(host)@, old(self).0) {
                Err(e) => r == Err::<(), NapiStatus>(e) && final(host)@ == old(host)@,
                Ok(t) => if !old(host)@.valid(value) {
                    r == Err::<(), NapiStatus>(NapiStatus::InvalidArg) && final(host)@ == old(host)@
                } else {
                    r == Ok::<(), NapiStatus>(()) && written(
                        old(host)@,
                        final(host)@,
                        t,
                        KeyView::Name(key@),
                        old(host)@.target(value.raw),
                    )
                },
            },
    {
        let k = name_key(key)?;
        write_prop(host, self.0, k, value)
    }

    /// Freezes the object: no property can be added, changed or deleted any more.
    pub fn freeze(&mut self, host: &mut NapiHost) -> (r: NapiResult<()>)
        requires
            old(host)@.wf(),
        ensures
            *final(self) == *old(self),
            final(host)@.wf(),
            old(host)@.succeeds(final(host)@),
            match object_result(old(host)@, old(self).0) {
                Err(e) => r == Err::<(), NapiStatus>(e) && final(host)@ == old(host)@,
                Ok(t) => r == Ok::<(), NapiStatus>(()) && final(host)@ == (HostView {
                    values: old(host)@.values.update(
                        t as int,
                        ValueView { sealed: true, frozen: true, ..old(host)@.values[t as int] },
                    ),
                    ..old(host)@
                }),
            },
    {
        restrict(host, self.0, true)
    }

    /// Seals the object: no property can be added or deleted any more.
    pub fn seal(&mut self, host: &mut NapiHost) -> (r: NapiResult<()>)
        requires
            old(host)@.wf(),
        ensures
            *final(self) == *old(self),
            final(host)@.wf(),
            old(host)@.succeeds(final(host)@),
            match object_result(old(host)@, old(self).0) {
                Err(e) => r == Err::<(), NapiStatus>(e) && final(host)@ == old(host)@,
                Ok(t) => r == Ok::<(), NapiStatus>(()) && final(host)@ == (HostView {
                    values: old(host)@.values.update(
                        t as int,
                        ValueView { sealed: true, ..old(host)@.values[t as int] },
                    ),
                    ..old(host)@
                }),
            },
    {
        restrict(host, self.0, false)
    }
}

/// The property key the value behind `k` names: a string names its text, a symbol itself;
/// `InvalidArg` for a dead handle, `NameExpected` for any other value.
pub open spec fn key_result(h: HostView, k: JsValue) -> NapiResult<KeyView> {
    if !h.valid(k) {
        Err(NapiStatus::InvalidArg)
    } else {
        match h.data(k.raw) {
            Data::Text(t) => Ok(KeyView::Name(t)),
            Data::Symbol(_) => Ok(KeyView::Symbol(h.target(k.raw))),
            _ => Err(NapiStatus::NameExpected),
        }
    }
}

fn key_from(host: &NapiHost, k: JsValue) -> (r: NapiResult<Key>)
    requires
        host@.wf(),
    ensures
        match key_result(host@, k) {
            Err(e) => r == Err::<Key, NapiStatus>(e),
            Ok(kv) => (r matches Ok(x) && x@ == kv),
        },
{
    let t = host.target_of(k)?;
    match &host.entity(t).payload {
        Payload::Text(s) => Ok(Key::Name(s.clone())),
        Payload::Symbol(_) => Ok(Key::Symbol(t)),
        _ => Err(NapiStatus::NameExpected),
    }
}

impl JsObject {
    /// Sets the property named by the string or symbol `key` to the value behind `value`.
    pub fn set_property(&mut self, host: &mut NapiHost, key: JsValue, value: JsValue) -> (r: NapiResult<()>)
        requires
            old(host)@.wf(),
        ensures
            *final(self) == *old(self),
            final(host)@.wf(),
            old(host)@.succeeds(final(host)@),
            match object_result(old(host)@, old(self).0) {
                Err(e) => r == Err::<(), NapiStatus>(e) && final(host)@ == old(host)@,
                Ok(t) => match key_result(old(host)@, key) {
                    Err(e) => r == Err::<(), NapiStatus>(e) && final(host)@ == old(host)@,
                    Ok(k) => if !old(host)@.valid(value) {
                        r == Err::<(), NapiStatus>(NapiStatus::InvalidArg) && final(host)@ == old(host)@
                    } else {
                        r == Ok::<(), NapiStatus>(()) && written(old(host)@, final(host)@, t, k, old(host)@.target(value.raw))
                    },
                },
            },
    {
        let _ = object_target(host, self.0)?;
        let k = key_from(host, key)?;
        write_prop(host, self.0, k, value)
    }

    /// A new handle to the property named by `key`, or to `undefined` when there is none.
    pub fn get_property(&self, host: &mut NapiHost, key: JsValue) -> (r: NapiResult<JsValue>)
        requires
            old(host)@.wf(),
        ensures
            final(host)@.wf(),
            old(host)@.succeeds(final(host)@),
            match object_result(old(host)@, self.0) {
                Err(e) => r == Err::<JsValue, NapiStatus>(e) && final(host)@ == old(host)@,
                Ok(t) => match key_result(old(host)@, key) {
                    Err(e) => r == Err::<JsValue, NapiStatus>(e) && final(host)@ == old(host)@,
                    Ok(k) => (r matches Ok(x) && read_back(old(host)@, final(host)@, t, k, x)),
                },
            },
    {
        let _ = object_target(host, self.0)?;
        let k = key_from(host, key)?;
        read_prop(host, self.0, k)
    }

    /// Whether the property named by `key` is present.
    pub fn has_property(&self, host: &NapiHost, key: JsValue) -> (r: NapiResult<bool>)
        requires
            host@.wf(),
        ensures
            match object_result(host@, self.0) {
                Err(e) => r == Err::<bool, NapiStatus>(e),
                Ok(t) => match key_result(host@, key) {
                    Err(e) => r == Err::<bool, NapiStatus>(e),
                    Ok(k) => r == Ok::<bool, NapiStatus>(property(host@, t, k) is Some),
                },
            },
    {
        let _ = object_target(host, self.0)?;
        let k = key_from(host, key)?;
        has_prop(host, self.0, k)
    }

    /// Whether the object itself has the property named by `key`; the objects of this
    /// host have no prototype chain, so this is `has_property`.
    pub fn has_own_property(&self, host: &NapiHost, key: JsValue) -> (r: NapiResult<bool>)
        requires
            host@.wf(),
        ensures
            match object_result(host@, self.0) {
                Err(e) => r == Err::<bool, NapiStatus>(e),
                Ok(t) => match key_result(host@, key) {
                    Err(e) => r == Err::<bool, NapiStatus>(e),
                    Ok(k) => r == Ok::<bool, NapiStatus>(property(host@, t, k) is Some),
                },
            },
    {
        self.has_property(host, key)
    }

    /// Deletes the property named by `key`, answering whether the object no longer has it.
    pub fn delete_property(&self, host: &mut NapiHost, key: JsValue) -> (r: NapiResult<bool>)
        requires
            old(host)@.wf(),
        ensures
            final(host)@.wf(),
            old(host)@.succeeds(final(host)@),
            match object_result(old(host)@, self.0) {
                Err(e) => r == Err::<bool, NapiStatus>(e) && final(host)@ == old(host)@,
                Ok(t) => match key_result(old(host)@, key) {
                    Err(e) => r == Err::<bool, NapiStatus>(e) && final(host)@ == old(host)@,
                    Ok(k) => (r matches Ok(b) && deleted(old(host)@, final(host)@, t, k, b)),
                },
            },
    {
        let _ = object_target(host, self.0)?;
        let k = key_from(host, key)?;
        delete_prop(host, self.0, k)
    }
}

/// The length of the array behind `a`: `InvalidArg` for a dead handle, `ArrayExpected`
/// for another kind of value.
pub open spec fn length_result(h: HostView, a: JsValue) -> NapiResult<u32> {
    if !h.valid(a) {
        Err(NapiStatus::InvalidArg)
    } else {
        match h.data(a.raw) {
            Data::Array(n) => Ok(n),
            _ => Err(NapiStatus::ArrayExpected),
        }
    }
}

impl JsArray {
    /// A new array of length `length`, without elements. `InvalidArg` for a length beyond
    /// the largest array length.
    pub fn new(env: NapiEnv, host: &mut NapiHost, length: usize) -> (r: NapiResult<JsArray>)
        requires
            old(host)@.wf(),
        ensures
            final(host)@.wf(),
            old(host)@.succeeds(final(host)@),
            length > u32::MAX ==> r == Err::<JsArray, NapiStatus>(NapiStatus::InvalidArg)
                && final(host)@ == old(host)@,
            length <= u32::MAX ==> (r matches Ok(a) && created(old(host)@, final(host)@, a.0, Data::Array(length as u32))),
    {
        if length > u32::MAX as usize {
            return Err(NapiStatus::InvalidArg);
        }
        Ok(JsArray(host.create(plain(Payload::Array(length as u32)))))
    }

    /// A new empty array.
    pub fn empty(env: NapiEnv, host: &mut NapiHost) -> (r: NapiResult<JsArray>)
        requires
            old(host)@.wf(),
        ensures
            final(host)@.wf(),
            old(host)@.succeeds(final(host)@),
            r matches Ok(a) && created(old(host)@, final(host)@, a.0, Data::Array(0)),
    {
        Ok(JsArray(host.create(plain(Payload::Array(0)))))
    }

    /// The length of the array.
    pub fn len(&self, host: &NapiHost) -> (r: NapiResult<u32>)
        requires
            host@.wf(),
        ensures
            r == length_result(host@, self.0),
    {
        let t = host.target_of(self.0)?;
        match &host.entity(t).payload {
            Payload::Array(n) => Ok(*n),
            _ => Err(NapiStatus::ArrayExpected),
        }
    }

    /// Whether the length of the array is 0.
    pub fn is_empty(&self, host: &NapiHost) -> (r: NapiResult<bool>)
        requires
            host@.wf(),
        ensures
            match length_result(host@, self.0) {
                Ok(n) => r == Ok::<bool, NapiStatus>(n == 0),
                Err(e) => r == Err::<bool, NapiStatus>(e),
            },
    {
        Ok(self.len(host)? == 0)
    }

    /// A new handle to element `index`, or to `undefined` when there is none.
    pub fn get(&self, host: &mut NapiHost, index: u32) -> (r: NapiResult<JsValue>)
        requires
            old(host)@.wf(),
        ensures
            final(host)@.wf(),
            old(host)@.succeeds(final(host)@),
            match object_result(old(host)@, self.0) {
                Err(e) => r == Err::<JsValue, NapiStatus>(e) && final(host)@ == old(host)@,
                Ok(t) => (r matches Ok(x) && read_back(old(host)@, final(host)@, t, KeyView::Index(index), x)),
            },
    {
        read_prop(host, self.0, Key::Index(index))
    }

    /// Sets element `index` to the value behind `value`; the array grows to cover it.
    pub fn set(&self, host: &mut NapiHost, index: u32, value: JsValue) -> (r: NapiResult<()>)
        requires
            old(host)@.wf(),
        ensures
            final(host)@.wf(),
            old(host)@.succeeds(final(host)@),
            match object_result(old(host)@, self.0) {
                Err(e) => r == Err::<(), NapiStatus>(e) && final(host)@ == old(host)@,
                Ok(t) => if !old(host)@.valid(value) {
                    r == Err::<(), NapiStatus>(NapiStatus::InvalidArg) && final(host)@ == old(host)@
                } else {
                    r == Ok::<(), NapiStatus>(()) && written(
                        old(host)@,
                        final(host)@,
                        t,
                        KeyView::Index(index),
                        old(host)@.target(value.raw),
                    )
                },
            },
    {
        write_prop(host, self.0, Key::Index(index), value)
    }
}

/// The array behind `a` in `h` lists `names`: it has their count as its length, and
/// element `i` is a string holding `names[i]`.
pub open spec fn lists_names(h: HostView, a: JsValue, names: Seq<Seq<char>>) -> bool {
    &&& h.valid(a)
    &&& length_result(h, a) == Ok::<u32, NapiStatus>(names.len() as u32)
    &&& forall|i: int| 0 <= i < names.len() ==> #[trigger] element_text(h, h.target(a.raw), i, names[i])
}

/// Element `k` of the value in `a` is a string holding `text`.
pub open spec fn element_text(h: HostView, a: usize, k: int, text: Seq<char>) -> bool {
    &&& property(h, a, KeyView::Index(k as u32)) is Some
    &&& property(h, a, KeyView::Index(k as u32))->0 < h.values.len()
    &&& h.values[property(h, a, KeyView::Index(k as u32))->0 as int].data == Data::Text(text)
    &&& !h.values[property(h, a, KeyView::Index(k as u32))->0 as int].collected
}

/// A write to another key leaves a property as it was.
proof fn lemma_other_key(props: Seq<PropView>, p: PropView, owner: usize, key: KeyView)
    requires
        !(p.owner == owner && p.key == key),
    ensures
        last_write(props.push(p), owner, key) == last_write(props, owner, key),
{
    assert(props.push(p).drop_last() =~= props);
}

impl JsObject {
    /// A new array listing the names of the object's string-keyed properties, each once,
    /// in the order they were first written. `InvalidArg` when there are more names than
    /// an array can hold.
    pub fn get_property_names(&self, host: &mut NapiHost) -> (r: NapiResult<JsArray>)
        requires
            old(host)@.wf(),
        ensures
            final(host)@.wf(),
            old(host)@.succeeds(final(host)@),
            match object_result(old(host)@, self.0) {
                Err(e) => r == Err::<JsArray, NapiStatus>(e) && final(host)@ == old(host)@,
                Ok(t) => if own_names(old(host)@, t).len() > u32::MAX {
                    r == Err::<JsArray, NapiStatus>(NapiStatus::InvalidArg) && final(host)@ == old(host)@
                } else {
                    (r matches Ok(a) && lists_names(final(host)@, a.0, own_names(old(host)@, t)))
                },
            },
    {
        let t = object_target(host, self.0)?;
        let names = host.property_names(t);
        let ghost ns = own_names(host@, t);
        let n = names.len();
        if n > u32::MAX as usize {
            return Err(NapiStatus::InvalidArg);
        }
        let env = self.0.env;
        let arr = JsArray::new(env, host, n)?;
        let a = host.slot(arr.0)?;
        let ghost h_arr = host@;
        let mut i: usize = 0;
        while i < n
            invariant
                h_arr.wf(),
                host@.wf(),
                h_arr.succeeds(host@),
                old(host)@.succeeds(h_arr),
                n == names@.len(),
                n == ns.len(),
                n <= u32::MAX,
                i <= n,
                forall|k: int| 0 <= k < n ==> names@[k]@ == ns[k],
                h_arr.valid(arr.0),
                a == h_arr.target(arr.0.raw),
                host@.frames == h_arr.frames,
                host@.values.len() >= h_arr.values.len(),
                host@.values[a as int] == h_arr.values[a as int],
                h_arr.values[a as int].data == Data::Array(n as u32),
                !h_arr.values[a as int].frozen && !h_arr.values[a as int].sealed && !h_arr.values[a as int].collected,
                forall|k: int| 0 <= k < i ==> #[trigger] element_text(host@, a, k, ns[k]),
            decreases n - i,
        {
            let ghost h1 = host@;
            let text = JsString::new(env, host, names[i].as_str())?;
            let ghost h2 = host@;
            let sl = host.slot(text.0)?;
            assert(h2.props == h1.props);
            assert(h2.values[sl as int].data == Data::Text(ns[i as int]));
            write_slot(host, a, Key::Index(i as u32), sl);
            let ghost h3 = host@;
            proof {
                let pv = PropView { owner: a, key: KeyView::Index(i as u32), value: Some(sl) };
                assert(h2.values[a as int] == h_arr.values[a as int]);
                assert(h3 == (HostView { props: h2.props.push(pv), ..h2 }));
                assert forall|k: int| 0 <= k < i + 1 implies #[trigger] element_text(h3, a, k, ns[k]) by {
                    if k < i {
                        assert(element_text(h1, a, k, ns[k]));
                        let x = property(h1, a, KeyView::Index(k as u32))->0;
                        assert(k as u32 != i as u32);
                        lemma_other_key(h2.props, pv, a, KeyView::Index(k as u32));
                        assert(property(h3, a, KeyView::Index(k as u32)) == Some(x));
                        assert(h3.values[x as int] == h1.values[x as int]);
                    } else {
                        assert(k == i);
                        assert(h2.props.push(pv).last() == pv);
                        assert(property(h3, a, KeyView::Index(k as u32)) == Some(sl));
                        assert(h3.values[sl as int] == h2.values[sl as int]);
                        assert(h2.values[sl as int].data == Data::Text(ns[k]));
                        assert(!h2.values[sl as int].collected);
                    }
                }
                crate::descriptor::lemma_succeeds_trans(h_arr, h1, h3);
            }
            i = i + 1;
        }
        proof {
            assert(host@.handles[arr.0.raw as int] == h_arr.handles[arr.0.raw as int]);
            assert(host@.target(arr.0.raw) == a);
            assert(host@.valid(arr.0));
            assert(host@.data(arr.0.raw) == Data::Array(n as u32));
            assert(length_result(host@, arr.0) == Ok::<u32, NapiStatus>(ns.len() as u32));
            assert(ns == own_names(old(host)@, t));
            assert(lists_names(host@, arr.0, ns));
            crate::descriptor::lemma_succeeds_trans(old(host)@, h_arr, host@);
        }
        Ok(arr)
    }

    /// A new array listing the object's property names under a key filter. Objects of
    /// this host have no prototype chain and no per-property attributes, so every mode and
    /// every filter but `SkipStrings` list the names `get_property_names` lists, and
    /// `SkipStrings` lists none.
    pub fn get_all_property_names(
        &self,
        host: &mut NapiHost,
        mode: NapiKeyCollectionMode,
        filter: NapiKeyFilter,
        conversion: NapiKeyConversion,
    ) -> (r: NapiResult<JsArray>)
        requires
            old(host)@.wf(),
        ensures
            final(host)@.wf(),
            old(host)@.succeeds(final(host)@),
            match object_result(old(host)@, self.0) {
                Err(e) => r == Err::<JsArray, NapiStatus>(e) && final(host)@ == old(host)@,
                Ok(t) => if filter == NapiKeyFilter::SkipStrings {
                    (r matches Ok(a) && lists_names(final(host)@, a.0, Seq::<Seq<char>>::empty()))
                } else if own_names(old(host)@, t).len() > u32::MAX {
                    r == Err::<JsArray, NapiStatus>(NapiStatus::InvalidArg) && final(host)@ == old(host)@
                } else {
                    (r matches Ok(a) && lists_names(final(host)@, a.0, own_names(old(host)@, t)))
                },
            },
    {
        let _ = object_target(host, self.0)?;
        match filter {
            NapiKeyFilter::SkipStrings => {
                let a = JsArray::empty(self.0.env, host)?;
                Ok(a)
            },
            _ => self.get_property_names(host),
        }
    }
}

impl NapiEnv {
    /// A new empty object.
    pub fn object(&self, host: &mut NapiHost) -> (r: NapiResult<JsObject>)
        requires
            old(host)@.wf(),
        ensures
            final(host)@.wf(),
            old(host)@.succeeds(final(host)@),
            r matches Ok(o) && created(old(host)@, final(host)@, o.0, Data::Object),
    {
        JsObject::new(*self, host)
    }

    /// A new empty array.
    pub fn array(&self, host: &mut NapiHost) -> (r: NapiResult<JsArray>)
        requires
            old(host)@.wf(),
        ensures
            final(host)@.wf(),
            old(host)@.succeeds(final(host)@),
            r matches Ok(a) && created(old(host)@, final(host)@, a.0, Data::Array(0)),
    {
        JsArray::empty(*self, host)
    }
}

} // verus!
