//! Property descriptors: the records that define several properties of an object at once,
//! and the builders that check them.
use vstd::prelude::*;
use crate::callback::NapiCallback;
use crate::exception::{contains_nul, has_nul};
use crate::host::{Data, HostView, JsValue, Key, KeyView, NapiEnv, NapiHost, Payload};
use crate::kinds::{attribute_bits, NapiPropertyAttributes};
use crate::object::{after_write, object_result, object_target, write_slot};
use crate::status::{NapiResult, NapiStatus};
use crate::value::ValueKind;

verus! {

/// A property descriptor: the key (a UTF-8 name or a name value), and a data value, a
/// method, or a getter and a setter, with attribute bits.
#[derive(Debug)]
pub struct NapiPropertyDescriptor {
    pub utf8name: Option<String>,
    pub name: Option<JsValue>,
    pub value: Option<JsValue>,
    pub method: Option<JsValue>,
    pub getter: Option<JsValue>,
    pub setter: Option<JsValue>,
    pub attributes: u32,
}

/// The mathematical form of a descriptor.
pub struct DescView {
    pub utf8name: Option<Seq<char>>,
    pub name: Option<JsValue>,
    pub value: Option<JsValue>,
    pub method: Option<JsValue>,
    pub getter: Option<JsValue>,
    pub setter: Option<JsValue>,
    pub attributes: u32,
}

impl NapiPropertyDescriptor {
    pub open spec fn view(&self) -> DescView {
        DescView {
            utf8name: match self.utf8name {
                Some(n) => Some(n@),
                None => None,
            },
            name: self.name,
            value: self.value,
            method: self.method,
            getter: self.getter,
            setter: self.setter,
            attributes: self.attributes,
        }
    }

    /// The descriptor record handed to the host.
    pub fn raw(&self) -> (r: &NapiPropertyDescriptor)
        ensures
            r == self,
    {
        self
    }
}

/// The mathematical forms of descriptors.
pub open spec fn desc_views(ds: Seq<NapiPropertyDescriptor>) -> Seq<DescView> {
    ds.map_values(|d: NapiPropertyDescriptor| d@)
}

/// The key a descriptor defines: its UTF-8 name, else the text of its string name or the
/// slot of its symbol name; `None` when it has no usable key.
pub open spec fn desc_key(h: HostView, d: DescView) -> Option<KeyView> {
    match d.utf8name {
        Some(n) => Some(KeyView::Name(n)),
        None => match d.name {
            Some(v) => if h.valid(v) {
                match h.data(v.raw) {
                    Data::Text(t) => Some(KeyView::Name(t)),
                    Data::Symbol(_) => Some(KeyView::Symbol(h.target(v.raw))),
                    _ => None,
                }
            } else {
                None
            },
            None => None,
        },
    }
}

/// The handle a descriptor stores under its key: its value, else its method, else its
/// getter, else its setter. An accessor property is recorded with the function that reads
/// it, or with its setter when it has no getter.
pub open spec fn desc_handle(d: DescView) -> Option<JsValue> {
    if d.value is Some {
        d.value
    } else if d.method is Some {
        d.method
    } else if d.getter is Some {
        d.getter
    } else {
        d.setter
    }
}

/// The property a descriptor writes in state `h`, if it is well formed there.
pub open spec fn desc_entry(h: HostView, d: DescView) -> Option<(KeyView, usize)> {
    match (desc_key(h, d), desc_handle(d)) {
        (Some(k), Some(v)) => if h.valid(v) {
            Some((k, h.target(v.raw)))
        } else {
            None
        },
        _ => None,
    }
}

/// The state after the writes `entries` to the value in `owner`, in order.
pub open spec fn after_writes(h: HostView, owner: usize, entries: Seq<(KeyView, usize)>) -> HostView
    decreases entries.len(),
{
    if entries.len() == 0 {
        h
    } else {
        let last = entries.last();
        after_write(after_writes(h, owner, entries.drop_last()), owner, last.0, last.1)
    }
}

/// The entries the descriptors write, each read in state `h`.
pub open spec fn desc_entries(h: HostView, descs: Seq<DescView>) -> Seq<(KeyView, usize)> {
    Seq::new(descs.len(), |i: int| desc_entry(h, descs[i])->0)
}

/// Every descriptor is well formed in state `h`.
pub open spec fn descs_ok(h: HostView, descs: Seq<DescView>) -> bool {
    forall|i: int| 0 <= i < descs.len() ==> desc_entry(h, descs[i]) is Some
}

/// The key of a descriptor.
fn key_of(host: &NapiHost, d: &NapiPropertyDescriptor) -> (r: Option<Key>)
    requires
        host@.wf(),
    ensures
        match desc_key(host@, d@) {
            Some(k) => (r matches Some(x) && x@ == k),
            None => r is None,
        },
{
    match &d.utf8name {
        Some(n) => Some(Key::Name(n.clone())),
        None => match d.name {
            Some(v) => match host.target_of(v) {
                Ok(t) => match &host.entity(t).payload {
                    Payload::Text(s) => Some(Key::Name(s.clone())),
                    Payload::Symbol(_) => Some(Key::Symbol(t)),
                    _ => None,
                },
                Err(_) => None,
            },
            None => None,
        },
    }
}

fn handle_of(d: &NapiPropertyDescriptor) -> (r: Option<JsValue>)
    ensures
        r == desc_handle(d@),
{
    if d.value.is_some() {
        d.value
    } else if d.method.is_some() {
        d.method
    } else if d.getter.is_some() {
        d.getter
    } else {
        d.setter
    }
}

/// Defines the properties the descriptors describe on the value behind `object`, in
/// order. Every descriptor is checked first: one without a usable key gives
/// `NameExpected`, one whose value is missing or dead gives `InvalidArg`, and then nothing
/// is written.
pub fn define_properties(host: &mut NapiHost, object: JsValue, properties: &Vec<NapiPropertyDescriptor>) -> (r:
    NapiResult<()>)
    requires
        old(host)@.wf(),
    ensures
        final(host)@.wf(),
        old(host)@.succeeds(final(host)@),
        match object_result(old(host)@, object) {
            Err(e) => r == Err::<(), NapiStatus>(e) && final(host)@ == old(host)@,
            Ok(t) => if descs_ok(old(host)@, desc_views(properties@)) {
                r == Ok::<(), NapiStatus>(()) && final(host)@ == after_writes(
                    old(host)@,
                    t,
                    desc_entries(old(host)@, desc_views(properties@)),
                )
            } else {
                r is Err && final(host)@ == old(host)@
            },
        },
{
    let t = object_target(host, object)?;
    let ghost h0 = host@;
    let ghost descs = desc_views(properties@);
    let mut keys: Vec<Key> = Vec::new();
    let mut slots: Vec<usize> = Vec::new();
    let mut i: usize = 0;
    while i < properties.len()
        invariant
            host@ == h0,
            h0 == old(host)@,
            object_result(h0, object) == Ok::<usize, NapiStatus>(t),
            h0.wf(),
            descs == desc_views(properties@),
            i <= properties@.len(),
            keys@.len() == i,
            slots@.len() == i,
            forall|j: int|
                0 <= j < i ==> desc_entry(h0, descs[j]) == Some((keys@[j]@, slots@[j])),
            forall|j: int|
                0 <= j < i ==> slots@[j] < h0.values.len() && !h0.values[slots@[j] as int].collected,
        decreases properties@.len() - i,
    {
        let d = &properties[i];
        assert(descs[i as int] == d@);
        let k = match key_of(host, d) {
            Some(k) => k,
            None => {
                assert(desc_entry(h0, descs[i as int]) is None);
                assert(!descs_ok(h0, descs));
                return Err(NapiStatus::NameExpected);
            },
        };
        let v = match handle_of(d) {
            Some(v) => v,
            None => {
                assert(desc_entry(h0, descs[i as int]) is None);
                assert(!descs_ok(h0, descs));
                return Err(NapiStatus::InvalidArg);
            },
        };
        let s = match host.target_of(v) {
            Ok(s) => s,
            Err(e) => {
                assert(desc_entry(h0, descs[i as int]) is None);
                assert(!descs_ok(h0, descs));
                return Err(e);
            },
        };
        keys.push(k);
        slots.push(s);
        i = i + 1;
    }
    let ghost entries = desc_entries(h0, descs);
    assert(descs_ok(h0, descs));
    let mut j: usize = 0;
    let n = keys.len();
    while j < n
        invariant
            h0 == old(host)@,
            object_result(h0, object) == Ok::<usize, NapiStatus>(t),
            h0.wf(),
            host@.wf(),
            h0.succeeds(host@),
            n == keys@.len(),
            n == slots@.len(),
            n == entries.len(),
            j <= n,
            t < h0.values.len(),
            !h0.values[t as int].collected,
            forall|m: int| j <= m < n ==> entries[m] == (keys@[m]@, slots@[m]),
            forall|m: int| 0 <= m < n ==> slots@[m] < h0.values.len() && !h0.values[slots@[m] as int].collected,
            host@.values.len() == h0.values.len(),
            forall|m: int|
                0 <= m < h0.values.len() ==> host@.values[m].collected == h0.values[m].collected,
            host@ == after_writes(h0, t, entries.take(j as int)),
        decreases n - j,
    {
        let k = take_key(&mut keys, j);
        let s = slots[j];
        let ghost before = host@;
        write_slot(host, t, k, s);
        proof {
            assert(entries.take(j + 1).drop_last() =~= entries.take(j as int));
            assert(entries.take(j + 1).last() == entries[j as int]);
            lemma_succeeds_trans(h0, before, host@);
        }
        j = j + 1;
    }
    assert(entries.take(n as int) =~= entries);
    Ok(())
}

/// The key at `i`, leaving a placeholder behind.
fn take_key(keys: &mut Vec<Key>, i: usize) -> (r: Key)
    requires
        i < old(keys)@.len(),
    ensures
        r@ == old(keys)@[i as int]@,
        final(keys)@.len() == old(keys)@.len(),
        forall|m: int| 0 <= m < old(keys)@.len() && m != i ==> final(keys)@[m] == old(keys)@[m],
{
    let mut k = Key::Index(0);
    std::mem::swap(&mut k, &mut keys[i]);
    k
}

/// `succeeds` is transitive.
pub proof fn lemma_succeeds_trans(a: HostView, b: HostView, c: HostView)
    requires
        a.wf(),
        a.succeeds(b),
        b.succeeds(c),
    ensures
        a.succeeds(c),
{
    assert forall|i: int|
        0 <= i < c.frames.len() && c.frames[i].id < a.next_scope implies a.scope_open(
        c.frames[i].id,
    ) by {
        assert(b.scope_open(c.frames[i].id));
        let k = choose|k: int| 0 <= k < b.frames.len() && b.frames[k].id == c.frames[i].id;
        assert(a.scope_open(b.frames[k].id));
    }
}

impl NapiEnv {
    /// Defines the properties the descriptors describe on the value behind `object`, in
    /// order, after checking every descriptor.
    pub fn define_properties(&self, host: &mut NapiHost, object: JsValue, properties: &Vec<NapiPropertyDescriptor>) -> (r:
        NapiResult<()>)
        requires
            old(host)@.wf(),
        ensures
            final(host)@.wf(),
            old(host)@.succeeds(final(host)@),
            match object_result(old(host)@, object) {
                Err(e) => r == Err::<(), NapiStatus>(e) && final(host)@ == old(host)@,
                Ok(t) => if descs_ok(old(host)@, desc_views(properties@)) {
                    r == Ok::<(), NapiStatus>(()) && final(host)@ == after_writes(
                        old(host)@,
                        t,
                        desc_entries(old(host)@, desc_views(properties@)),
                    )
                } else {
                    r is Err && final(host)@ == old(host)@
                },
            },
    {
        define_properties(host, object, properties)
    }
}

/// A builder for a data property.
#[derive(Debug)]
pub struct DescriptorValueBuilder {
    pub utf8name: Option<String>,
    pub name: Option<JsValue>,
    pub value: Option<JsValue>,
    pub attributes: u32,
}

/// `n` is a string or a symbol, usable as a property name.
pub open spec fn usable_name(h: HostView, n: JsValue) -> bool {
    h.valid(n) && (h.data(n.raw) is Text || h.data(n.raw) is Symbol)
}

fn is_name(host: &NapiHost, n: JsValue) -> (r: bool)
    requires
        host@.wf(),
    ensures
        r == usable_name(host@, n),
{
    match host.target_of(n) {
        Ok(t) => match &host.entity(t).payload {
            Payload::Text(_) | Payload::Symbol(_) => true,
            _ => false,
        },
        Err(_) => false,
    }
}

/// What building a descriptor with these parts gives: `StringExpected` for a UTF-8 name
/// holding a NUL byte, `InvalidArg` when there is no name at all.
pub open spec fn name_check(utf8name: Option<Seq<char>>, name: Option<JsValue>) -> NapiResult<()> {
    match utf8name {
        Some(n) => if has_nul(n) {
            Err(NapiStatus::StringExpected)
        } else {
            Ok(())
        },
        None => if name is None {
            Err(NapiStatus::InvalidArg)
        } else {
            Ok(())
        },
    }
}

/// `name_check` on a builder's UTF-8 name and name value.
pub open spec fn builder_names(utf8name: Option<String>, name: Option<JsValue>) -> NapiResult<()> {
    match utf8name {
        Some(n) => name_check(Some(n@), name),
        None => name_check(None, name),
    }
}

fn check_names(utf8name: &Option<String>, name: Option<JsValue>) -> (r: NapiResult<()>)
    ensures
        match utf8name {
            Some(n) => r == name_check(Some(n@), name),
            None => r == name_check(None, name),
        },
{
    match utf8name {
        Some(n) => if contains_nul(n.as_str()) {
            Err(NapiStatus::StringExpected)
        } else {
            Ok(())
        },
        None => if name.is_none() {
            Err(NapiStatus::InvalidArg)
        } else {
            Ok(())
        },
    }
}

impl DescriptorValueBuilder {
    /// A builder with no name, no value and the default attributes.
    pub fn new() -> (r: DescriptorValueBuilder)
        ensures
            r.utf8name is None && r.name is None && r.value is None && r.attributes == 0,
    {
        DescriptorValueBuilder { utf8name: None, name: None, value: None, attributes: 0 }
    }

    /// Sets the UTF-8 name of the property.
    pub fn with_utf8name(self, name: &str) -> (r: DescriptorValueBuilder)
        ensures
            r.utf8name matches Some(n) && n@ == name@,
            r.name == self.name && r.value == self.value && r.attributes == self.attributes,
    {
        DescriptorValueBuilder { utf8name: Some(name.to_owned()), ..self }
    }

    /// Sets the name of the property to a string or symbol value; any other value is
    /// ignored.
    pub fn with_name(self, host: &NapiHost, name: JsValue) -> (r: DescriptorValueBuilder)
        requires
            host@.wf(),
        ensures
            r.name == (if usable_name(host@, name) {
                Some(name)
            } else {
                self.name
            }),
            r.utf8name == self.utf8name && r.value == self.value && r.attributes == self.attributes,
    {
        if is_name(host, name) {
            DescriptorValueBuilder { name: Some(name), ..self }
        } else {
            self
        }
    }

    /// Sets the value of the property.
    pub fn with_value(self, value: JsValue) -> (r: DescriptorValueBuilder)
        ensures
            r.value == Some(value),
            r.utf8name == self.utf8name && r.name == self.name && r.attributes == self.attributes,
    {
        DescriptorValueBuilder { value: Some(value), ..self }
    }

    /// Adds an attribute to the property.
    pub fn with_attribute(self, attribute: NapiPropertyAttributes) -> (r: DescriptorValueBuilder)
        ensures
            r.attributes == self.attributes | attribute_bits(attribute),
            r.utf8name == self.utf8name && r.name == self.name && r.value == self.value,
    {
        let bits = self.attributes | attribute.bits();
        DescriptorValueBuilder { attributes: bits, ..self }
    }

    /// The descriptor. `StringExpected` for a UTF-8 name holding a NUL byte, `InvalidArg`
    /// when the property has no name.
    pub fn build(self) -> (r: NapiResult<NapiPropertyDescriptor>)
        ensures
            match self.utf8name {
                Some(n) => r is Ok <==> name_check(Some(n@), self.name) is Ok,
                None => r is Ok <==> name_check(None, self.name) is Ok,
            },
            match self.utf8name {
                Some(n) => (r matches Err(e) ==> name_check(Some(n@), self.name) == Err::<(), NapiStatus>(e)),
                None => (r matches Err(e) ==> name_check(None, self.name) == Err::<(), NapiStatus>(e)),
            },
            r matches Ok(d) ==> d.utf8name == self.utf8name && d.name == self.name && d.value
                == self.value && d.method is None && d.getter is None && d.setter is None
                && d.attributes == self.attributes,
    {
        check_names(&self.utf8name, self.name)?;
        Ok(NapiPropertyDescriptor {
            utf8name: self.utf8name,
            name: self.name,
            value: self.value,
            method: None,
            getter: None,
            setter: None,
            attributes: self.attributes,
        })
    }
}

/// A builder for a method property: a native closure registered as a function.
pub struct DescriptorMethodBuilder<F> {
    pub utf8name: Option<String>,
    pub name: Option<JsValue>,
    pub method: Option<F>,
    pub params: Vec<ValueKind>,
    pub attributes: u32,
}

impl<F> DescriptorMethodBuilder<F> {
    /// A builder with no name, no method, no arguments and the default attributes.
    pub fn new() -> (r: DescriptorMethodBuilder<F>)
        ensures
            r.utf8name is None && r.name is None && r.method is None && r.params@.len() == 0
                && r.attributes == 0,
    {
        DescriptorMethodBuilder { utf8name: None, name: None, method: None, params: Vec::new(), attributes: 0 }
    }

    /// Sets the UTF-8 name of the property.
    pub fn with_utf8name(self, name: &str) -> (r: DescriptorMethodBuilder<F>)
        ensures
            r.utf8name matches Some(n) && n@ == name@,
            r.name == self.name && r.method == self.method && r.params == self.params
                && r.attributes == self.attributes,
    {
        DescriptorMethodBuilder { utf8name: Some(name.to_owned()), ..self }
    }

    /// Sets the name of the property to a string or symbol value; any other value is
    /// ignored.
    pub fn with_name(self, host: &NapiHost, name: JsValue) -> (r: DescriptorMethodBuilder<F>)
        requires
            host@.wf(),
        ensures
            r.name == (if usable_name(host@, name) {
                Some(name)
            } else {
                self.name
            }),
            r.utf8name == self.utf8name && r.method == self.method && r.params == self.params
                && r.attributes == self.attributes,
    {
        if is_name(host, name) {
            DescriptorMethodBuilder { name: Some(name), ..self }
        } else {
            self
        }
    }

    /// Sets the method and the kinds of its arguments.
    pub fn with_method(self, method: F, params: Vec<ValueKind>) -> (r: DescriptorMethodBuilder<F>)
        ensures
            r.method == Some(method) && r.params == params,
            r.utf8name == self.utf8name && r.name == self.name && r.attributes == self.attributes,
    {
        DescriptorMethodBuilder { method: Some(method), params, ..self }
    }

    /// Adds an attribute to the property.
    pub fn with_attribute(self, attribute: NapiPropertyAttributes) -> (r: DescriptorMethodBuilder<F>)
        ensures
            r.attributes == self.attributes | attribute_bits(attribute),
            r.utf8name == self.utf8name && r.name == self.name && r.method == self.method
                && r.params == self.params,
    {
        let bits = self.attributes | attribute.bits();
        DescriptorMethodBuilder { attributes: bits, ..self }
    }

    /// Registers the method as a function and returns the descriptor holding it, with the
    /// registration that owns the closure. `StringExpected` for a UTF-8 name holding a NUL
    /// byte, `InvalidArg` when the property has no name or no method; the host is
    /// unchanged on failure.
    pub fn build(self, env: NapiEnv, host: &mut NapiHost) -> (r: NapiResult<(NapiPropertyDescriptor, NapiCallback<F>)>)
        requires
            old(host)@.wf(),
        ensures
            final(host)@.wf(),
            old(host)@.succeeds(final(host)@),
            builder_names(self.utf8name, self.name) matches Err(e) ==> r == Err::<
                (NapiPropertyDescriptor, NapiCallback<F>),
                NapiStatus,
            >(e),
            builder_names(self.utf8name, self.name) is Ok && self.method is None ==> r == Err::<
                (NapiPropertyDescriptor, NapiCallback<F>),
                NapiStatus,
            >(NapiStatus::InvalidArg),
            builder_names(self.utf8name, self.name) is Ok && self.method is Some ==> r is Ok,
            r is Err ==> final(host)@ == old(host)@,
            r matches Ok((d, cb)) ==> {
                &&& d.utf8name == self.utf8name && d.name == self.name && d.value is None
                &&& d.method == Some(cb.function()) && d.getter is None && d.setter is None
                &&& d.attributes == self.attributes
                &&& cb.holds_closure() && cb.params() == self.params@
                &&& crate::callback::registered(old(host)@, final(host)@, cb.function())
            },
    {
        check_names(&self.utf8name, self.name)?;
        let method = match self.method {
            Some(m) => m,
            None => return Err(NapiStatus::InvalidArg),
        };
        let cb = NapiCallback::new(env, host, self.params, method)?;
        let f = cb.js_function();
        Ok((
            NapiPropertyDescriptor {
                utf8name: self.utf8name,
                name: self.name,
                value: None,
                method: Some(f.0),
                getter: None,
                setter: None,
                attributes: self.attributes,
            },
            cb,
        ))
    }
}

/// A builder for an accessor property: a getter and a setter, each a native closure
/// registered as a function.
pub struct DescriptorAccessorBuilder<G, S> {
    pub utf8name: Option<String>,
    pub name: Option<JsValue>,
    pub getter: Option<G>,
    pub setter: Option<S>,
    pub setter_param: ValueKind,
    pub attributes: u32,
}

impl<G, S> DescriptorAccessorBuilder<G, S> {
    /// A builder with no name, no getter, no setter and the default attributes; a setter
    /// will take one argument of any object kind.
    pub fn new() -> (r: DescriptorAccessorBuilder<G, S>)
        ensures
            r.utf8name is None && r.name is None && r.getter is None && r.setter is None
                && r.setter_param == ValueKind::Object && r.attributes == 0,
    {
        DescriptorAccessorBuilder {
            utf8name: None,
            name: None,
            getter: None,
            setter: None,
            setter_param: ValueKind::Object,
            attributes: 0,
        }
    }

    /// Sets the UTF-8 name of the property.
    pub fn with_utf8name(self, name: &str) -> (r: DescriptorAccessorBuilder<G, S>)
        ensures
            r.utf8name matches Some(n) && n@ == name@,
            r.name == self.name && r.getter == self.getter && r.setter == self.setter
                && r.setter_param == self.setter_param && r.attributes == self.attributes,
    {
        DescriptorAccessorBuilder { utf8name: Some(name.to_owned()), ..self }
    }

    /// Sets the name of the property to a string or symbol value; any other value is
    /// ignored.
    pub fn with_name(self, host: &NapiHost, name: JsValue) -> (r: DescriptorAccessorBuilder<G, S>)
        requires
            host@.wf(),
        ensures
            r.name == (if usable_name(host@, name) {
                Some(name)
            } else {
                self.name
            }),
            r.utf8name == self.utf8name && r.getter == self.getter && r.setter == self.setter
                && r.setter_param == self.setter_param && r.attributes == self.attributes,
    {
        if is_name(host, name) {
            DescriptorAccessorBuilder { name: Some(name), ..self }
        } else {
            self
        }
    }

    /// Sets the getter.
    pub fn with_getter(self, getter: G) -> (r: DescriptorAccessorBuilder<G, S>)
        ensures
            r.getter == Some(getter),
            r.utf8name == self.utf8name && r.name == self.name && r.setter == self.setter
                && r.setter_param == self.setter_param && r.attributes == self.attributes,
    {
        DescriptorAccessorBuilder { getter: Some(getter), ..self }
    }

    /// Sets the setter and the kind of the value it takes.
    pub fn with_setter(self, setter: S, param: ValueKind) -> (r: DescriptorAccessorBuilder<G, S>)
        ensures
            r.setter == Some(setter) && r.setter_param == param,
            r.utf8name == self.utf8name && r.name == self.name && r.getter == self.getter
                && r.attributes == self.attributes,
    {
        DescriptorAccessorBuilder { setter: Some(setter), setter_param: param, ..self }
    }

    /// Adds an attribute to the property.
    pub fn with_attribute(self, attribute: NapiPropertyAttributes) -> (r: DescriptorAccessorBuilder<G, S>)
        ensures
            r.attributes == self.attributes | attribute_bits(attribute),
            r.utf8name == self.utf8name && r.name == self.name && r.getter == self.getter
                && r.setter == self.setter && r.setter_param == self.setter_param,
    {
        let bits = self.attributes | attribute.bits();
        DescriptorAccessorBuilder { attributes: bits, ..self }
    }

    /// Registers the getter and the setter as functions and returns the descriptor holding
    /// them, with the registrations that own the closures; a missing getter or setter
    /// stays empty. `StringExpected` for a UTF-8 name holding a NUL byte, `InvalidArg` when
    /// the property has no name; the host is unchanged on failure.
    pub fn build(self, env: NapiEnv, host: &mut NapiHost) -> (r: NapiResult<
        (NapiPropertyDescriptor, Option<NapiCallback<G>>, Option<NapiCallback<S>>),
    >)
        requires
            old(host)@.wf(),
        ensures
            final(host)@.wf(),
            old(host)@.succeeds(final(host)@),
            builder_names(self.utf8name, self.name) matches Err(e) ==> r == Err::<
                (NapiPropertyDescriptor, Option<NapiCallback<G>>, Option<NapiCallback<S>>),
                NapiStatus,
            >(e),
            builder_names(self.utf8name, self.name) is Ok ==> r is Ok,
            r is Err ==> final(host)@ == old(host)@,
            r matches Ok((d, g, st)) ==> {
                &&& d.utf8name == self.utf8name && d.name == self.name
                &&& d.value is None && d.method is None && d.attributes == self.attributes
                &&& (g is Some <==> self.getter is Some)
                &&& (st is Some <==> self.setter is Some)
                &&& (g matches Some(cb) ==> d.getter == Some(cb.function()) && cb.holds_closure()
                    && cb.params() == Seq::<ValueKind>::empty())
                &&& (g is None ==> d.getter is None)
                &&& (st matches Some(cb) ==> d.setter == Some(cb.function()) && cb.holds_closure()
                    && cb.params() == seq![self.setter_param])
                &&& (st is None ==> d.setter is None)
            },
    {
        check_names(&self.utf8name, self.name)?;
        let g = match self.getter {
            Some(get) => {
                let cb = NapiCallback::new(env, host, Vec::new(), get)?;
                Some(cb)
            },
            None => None,
        };
        let ghost mid = host@;
        let st = match self.setter {
            Some(set) => {
                let mut params: Vec<ValueKind> = Vec::new();
                params.push(self.setter_param);
                assert(params@ =~= seq![self.setter_param]);
                let cb = NapiCallback::new(env, host, params, set)?;
                proof {
                    crate::descriptor::lemma_succeeds_trans(old(host)@, mid, host@);
                }
                Some(cb)
            },
            None => None,
        };
        let getter = match &g {
            Some(cb) => Some(cb.js_function().0),
            None => None,
        };
        let setter = match &st {
            Some(cb) => Some(cb.js_function().0),
            None => None,
        };
        Ok((
            NapiPropertyDescriptor {
                utf8name: self.utf8name,
                name: self.name,
                value: None,
                method: None,
                getter,
                setter,
                attributes: self.attributes,
            },
            g,
            st,
        ))
    }
}

} // verus!
