//! The embedding interface as state: the values the host owns, the handles native code
//! holds to them, and the stack of open handle scopes.
use vstd::prelude::*;
use crate::kinds::{NapiTypedarrayType, NapiValuetype};
use crate::status::{NapiResult, NapiStatus};

verus! {

/// The environment token the host hands to every native call.
#[derive(Clone, Copy, Debug, PartialEq, Eq, Structural)]
pub struct NapiEnv {
    pub raw: usize,
}

/// An opaque handle to a host value: the environment it belongs to and its slot in the
/// host's handle table.
#[derive(Clone, Copy, Debug, PartialEq, Eq, Structural)]
pub struct JsValue {
    pub env: NapiEnv,
    pub raw: usize,
}

/// What the host holds for a value.
#[derive(Debug)]
pub enum Payload {
    Undefined,
    Null,
    Global,
    Bool(bool),
    Number(i64),
    Text(String),
    Symbol(Option<String>),
    Object,
    Array(u32),
    Function(usize),
    External(u64),
    BigInt(i128),
    ArrayBuffer(Vec<u8>, bool),
    Buffer(Vec<u8>),
    TypedArray(NapiTypedarrayType, usize, usize, usize),
    DataView(usize, usize, usize),
    Date(i64),
    Error(ErrorKind, usize),
    Promise(usize),
}

/// The constructor of an error object.
#[derive(Clone, Copy, Debug, PartialEq, Eq, Structural)]
pub enum ErrorKind {
    Error,
    TypeError,
    RangeError,
}

/// The mathematical form of a payload.
pub enum Data {
    Undefined,
    Null,
    Global,
    Bool(bool),
    Number(i64),
    Text(Seq<char>),
    Symbol(Option<Seq<char>>),
    Object,
    /// The length.
    Array(u32),
    Function(usize),
    External(u64),
    BigInt(i128),
    /// The bytes, and whether the buffer has been detached.
    ArrayBuffer(Seq<u8>, bool),
    Buffer(Seq<u8>),
    /// Element type, backing buffer value, byte offset, element count.
    TypedArray(NapiTypedarrayType, usize, usize, usize),
    /// Backing buffer value, byte offset, byte length.
    DataView(usize, usize, usize),
    /// Milliseconds since the epoch.
    Date(i64),
    /// The constructor, and the value holding the message.
    Error(ErrorKind, usize),
    /// The deferred that settles the promise.
    Promise(usize),
}

impl Payload {
    pub open spec fn view(&self) -> Data {
        match self {
            Payload::Undefined => Data::Undefined,
            Payload::Null => Data::Null,
            Payload::Global => Data::Global,
            Payload::Bool(b) => Data::Bool(*b),
            Payload::Number(n) => Data::Number(*n),
            Payload::Text(s) => Data::Text(s@),
            Payload::Symbol(d) => Data::Symbol(
                match d {
                    Some(s) => Some(s@),
                    None => None,
                },
            ),
            Payload::Object => Data::Object,
            Payload::Array(n) => Data::Array(*n),
            Payload::Function(c) => Data::Function(*c),
            Payload::External(x) => Data::External(*x),
            Payload::BigInt(n) => Data::BigInt(*n),
            Payload::ArrayBuffer(b, d) => Data::ArrayBuffer(b@, *d),
            Payload::Buffer(b) => Data::Buffer(b@),
            Payload::TypedArray(t, b, o, l) => Data::TypedArray(*t, *b, *o, *l),
            Payload::DataView(b, o, l) => Data::DataView(*b, *o, *l),
            Payload::Date(ms) => Data::Date(*ms),
            Payload::Error(k, m) => Data::Error(*k, *m),
            Payload::Promise(d) => Data::Promise(*d),
        }
    }
}

/// The type tag the host reports for a value with this data.
pub open spec fn type_of(d: Data) -> NapiValuetype {
    match d {
        Data::Undefined => NapiValuetype::Undefined,
        Data::Null => NapiValuetype::Null,
        Data::Bool(_) => NapiValuetype::Boolean,
        Data::Number(_) => NapiValuetype::Number,
        Data::Text(_) => NapiValuetype::String,
        Data::Symbol(_) => NapiValuetype::Symbol,
        Data::Function(_) => NapiValuetype::Function,
        Data::External(_) => NapiValuetype::External,
        Data::BigInt(_) => NapiValuetype::Bigint,
        _ => NapiValuetype::Object,
    }
}

/// A value owned by the host, with the integrity flags objects carry.
#[derive(Debug)]
pub struct Entity {
    pub payload: Payload,
    pub frozen: bool,
    pub sealed: bool,
    pub collected: bool,
}

/// The mathematical form of a host value.
pub struct ValueView {
    pub data: Data,
    pub frozen: bool,
    pub sealed: bool,
    /// The host has garbage-collected the value.
    pub collected: bool,
}

impl Entity {
    pub open spec fn view(&self) -> ValueView {
        ValueView {
            data: self.payload@,
            frozen: self.frozen,
            sealed: self.sealed,
            collected: self.collected,
        }
    }
}

/// An entry of the handle table: the value it points at and the scope it was made in.
#[derive(Clone, Copy, Debug, PartialEq, Eq, Structural)]
pub struct Handle {
    pub target: usize,
    pub scope: u64,
}

/// A persistent reference: the value it names, its count (0 for a weak reference), and
/// whether native code has deleted it.
#[derive(Clone, Copy, Debug, PartialEq, Eq, Structural)]
pub struct RefSlot {
    pub target: usize,
    pub count: u32,
    pub deleted: bool,
}

/// A finalizer attached to a value, and whether it has fired.
#[derive(Clone, Copy, Debug, PartialEq, Eq, Structural)]
pub struct FinalizerSlot {
    pub owner: usize,
    pub fired: bool,
}

/// The state of a promise: pending, or settled with the value in a slot.
#[derive(Clone, Copy, Debug, PartialEq, Eq, Structural)]
pub enum PromiseState {
    Pending,
    Fulfilled(usize),
    Rejected(usize),
}

/// The value a settled promise holds.
pub open spec fn settled_slot(p: PromiseState) -> Option<usize> {
    match p {
        PromiseState::Pending => None,
        PromiseState::Fulfilled(v) => Some(v),
        PromiseState::Rejected(v) => Some(v),
    }
}

/// The key of a property: an element index or a name.
#[derive(Debug)]
pub enum Key {
    Index(u32),
    Name(String),
    /// The slot of a symbol value.
    Symbol(usize),
}

/// The mathematical form of a key.
pub enum KeyView {
    Index(u32),
    Name(Seq<char>),
    Symbol(usize),
}

impl Key {
    pub open spec fn view(&self) -> KeyView {
        match self {
            Key::Index(i) => KeyView::Index(*i),
            Key::Name(n) => KeyView::Name(n@),
            Key::Symbol(s) => KeyView::Symbol(*s),
        }
    }

    /// Whether two keys are the same.
    pub fn same(&self, other: &Key) -> (r: bool)
        ensures
            r == (self@ == other@),
    {
        match (self, other) {
            (Key::Index(a), Key::Index(b)) => *a == *b,
            (Key::Name(a), Key::Name(b)) => a.eq(b),
            (Key::Symbol(a), Key::Symbol(b)) => *a == *b,
            _ => false,
        }
    }
}

/// A write to a property log: `owner[key] = value`, or a deletion when `value` is `None`.
/// The latest write to a key decides the property.
#[derive(Debug)]
pub struct Prop {
    pub owner: usize,
    pub key: Key,
    pub value: Option<usize>,
}

/// The mathematical form of a property write.
pub struct PropView {
    pub owner: usize,
    pub key: KeyView,
    pub value: Option<usize>,
}

impl Prop {
    pub open spec fn view(&self) -> PropView {
        PropView { owner: self.owner, key: self.key@, value: self.value }
    }
}

/// The latest write to `owner[key]` in `props`, if any.
pub open spec fn last_write(props: Seq<PropView>, owner: usize, key: KeyView) -> Option<PropView>
    decreases props.len(),
{
    if props.len() == 0 {
        None
    } else if props.last().owner == owner && props.last().key == key {
        Some(props.last())
    } else {
        last_write(props.drop_last(), owner, key)
    }
}

/// The value of property `key` of the value in `owner`, if it has one.
pub open spec fn property(h: HostView, owner: usize, key: KeyView) -> Option<usize> {
    match last_write(h.props, owner, key) {
        Some(p) => p.value,
        None => None,
    }
}

/// Native data wrapped in an object: the object, the native token, the finalizer that
/// reclaims it, and whether the wrap is still in place.
#[derive(Clone, Copy, Debug, PartialEq, Eq, Structural)]
pub struct WrapSlot {
    pub owner: usize,
    pub data: u64,
    pub finalizer: usize,
    pub active: bool,
}

/// Native data attached to the environment: its token, and whether its finalizer has
/// fired.
#[derive(Clone, Copy, Debug, PartialEq, Eq, Structural)]
pub struct InstanceSlot {
    pub data: u64,
    pub finalized: bool,
}

/// What the environment's exit runs: the tokens of the cleanup hooks, most recently added
/// first, and the token of the instance data whose finalizer fires.
#[derive(Debug)]
pub struct Teardown {
    pub hooks: Vec<u64>,
    pub instance: Option<u64>,
}

/// A cleanup hook: the native token it runs with, and whether it was removed.
#[derive(Clone, Copy, Debug, PartialEq, Eq, Structural)]
pub struct HookSlot {
    pub token: u64,
    pub removed: bool,
}

/// The names of the string-keyed properties of the value in `owner` present in state `h`,
/// each once, in the order of the writes in `log` that first name them.
pub open spec fn names_in(h: HostView, owner: usize, log: Seq<PropView>) -> Seq<Seq<char>>
    decreases log.len(),
{
    if log.len() == 0 {
        Seq::empty()
    } else {
        let rest = names_in(h, owner, log.drop_last());
        let p = log.last();
        match p.key {
            KeyView::Name(n) => if p.owner == owner && property(h, owner, p.key) is Some
                && !rest.contains(n) {
                rest.push(n)
            } else {
                rest
            },
            _ => rest,
        }
    }
}

/// The names of the string-keyed properties the value in `owner` has, each once, in the
/// order they were first written.
pub open spec fn own_names(h: HostView, owner: usize) -> Seq<Seq<char>> {
    names_in(h, owner, h.props)
}

/// An open handle scope.
#[derive(Clone, Copy, Debug, PartialEq, Eq, Structural)]
pub struct Frame {
    pub id: u64,
    pub escapable: bool,
    pub escaped: bool,
}

/// The mathematical form of the host's state.
#[verifier::ext_equal]
pub struct HostView {
    pub env: NapiEnv,
    pub values: Seq<ValueView>,
    pub handles: Seq<Handle>,
    pub frames: Seq<Frame>,
    pub next_scope: u64,
    pub exception: Option<usize>,
    pub external_memory: i64,
    pub refs: Seq<RefSlot>,
    pub finalizers: Seq<FinalizerSlot>,
    pub promises: Seq<PromiseState>,
    pub props: Seq<PropView>,
    pub wraps: Seq<WrapSlot>,
    pub instance: Option<InstanceSlot>,
    pub hooks: Seq<HookSlot>,
}

/// The id of the scope that is open for the whole life of the host.
pub const ROOT_SCOPE: u64 = 0;

/// The slots of the values every host starts with.
pub const GLOBAL_SLOT: usize = 0;
pub const UNDEFINED_SLOT: usize = 1;
pub const NULL_SLOT: usize = 2;
pub const FALSE_SLOT: usize = 3;
pub const TRUE_SLOT: usize = 4;

impl HostView {
    /// The scope with this id is open.
    pub open spec fn scope_open(self, id: u64) -> bool {
        exists|i: int| 0 <= i < self.frames.len() && self.frames[i].id == id
    }

    /// The innermost open scope.
    pub open spec fn top(self) -> Frame {
        self.frames.last()
    }

    /// The handle names a value and its scope is still open.
    pub open spec fn live(self, raw: usize) -> bool {
        &&& raw < self.handles.len()
        &&& self.handles[raw as int].target < self.values.len()
        &&& self.scope_open(self.handles[raw as int].scope)
        &&& !self.values[self.handles[raw as int].target as int].collected
    }

    /// The handle belongs to this host's environment and is live.
    pub open spec fn valid(self, v: JsValue) -> bool {
        v.env == self.env && self.live(v.raw)
    }

    /// The slot of the value a handle points at.
    pub open spec fn target(self, raw: usize) -> usize {
        self.handles[raw as int].target
    }

    /// The data of the value a handle points at.
    pub open spec fn data(self, raw: usize) -> Data {
        self.values[self.target(raw) as int].data
    }

    /// The type tag of the value a handle points at.
    pub open spec fn kind(self, raw: usize) -> NapiValuetype {
        type_of(self.data(raw))
    }

    /// The state is well formed.
    pub open spec fn wf(self) -> bool {
        &&& self.frames.len() >= 1
        &&& self.frames[0].id == ROOT_SCOPE
        &&& forall|i: int, j: int|
            0 <= i < j < self.frames.len() ==> self.frames[i].id < self.frames[j].id
        &&& forall|i: int| 0 <= i < self.frames.len() ==> self.frames[i].id < self.next_scope
        &&& forall|h: int|
            0 <= h < self.handles.len() ==> {
                &&& self.handles[h].target < self.values.len()
                &&& self.handles[h].scope < self.next_scope
            }
        &&& self.values.len() > TRUE_SLOT
        &&& self.values.len() <= usize::MAX
        &&& self.handles.len() <= usize::MAX
        &&& self.values[GLOBAL_SLOT as int].data == Data::Global
        &&& self.values[UNDEFINED_SLOT as int].data == Data::Undefined
        &&& self.values[NULL_SLOT as int].data == Data::Null
        &&& self.values[FALSE_SLOT as int].data == Data::Bool(false)
        &&& self.values[TRUE_SLOT as int].data == Data::Bool(true)
        &&& self.exception matches Some(e) ==> e < self.values.len()
            && !self.values[e as int].collected
        &&& forall|i: int| 0 <= i < self.refs.len() ==> self.refs[i].target < self.values.len()
        &&& forall|i: int|
            0 <= i < self.finalizers.len() ==> self.finalizers[i].owner < self.values.len()
        &&& forall|v: int| 0 <= v <= TRUE_SLOT ==> !self.values[v].collected
        &&& forall|i: int|
            0 <= i < self.wraps.len() ==> #[trigger] self.wraps[i].owner < self.values.len()
                && self.wraps[i].finalizer < self.finalizers.len()
        &&& forall|i: int, j: int|
            0 <= i < self.wraps.len() && 0 <= j < self.wraps.len() && i != j && self.wraps[i].active
                && self.wraps[j].active ==> self.wraps[i].owner != self.wraps[j].owner
        &&& forall|i: int|
            0 <= i < self.props.len() ==> (#[trigger] self.props[i].value matches Some(v) ==> v
                < self.values.len() && !self.values[v as int].collected)
        &&& forall|i: int|
            0 <= i < self.promises.len() ==> (settled_slot(#[trigger] self.promises[i]) matches Some(v) ==> v
                < self.values.len() && !self.values[v as int].collected)
    }

    /// `next` is a later state of this host: handles are never rewritten, values never
    /// vanish, and no scope that is closed now is ever open again.
    pub open spec fn succeeds(self, next: HostView) -> bool {
        &&& next.env == self.env
        &&& self.handles.len() <= next.handles.len()
        &&& forall|h: int| 0 <= h < self.handles.len() ==> next.handles[h] == self.handles[h]
        &&& self.values.len() <= next.values.len()
        &&& forall|v: int|
            0 <= v < self.values.len() && self.values[v].collected ==> next.values[v].collected
        &&& self.refs.len() <= next.refs.len()
        &&& self.finalizers.len() <= next.finalizers.len()
        &&& self.promises.len() <= next.promises.len()
        &&& forall|i: int|
            0 <= i < self.promises.len() && self.promises[i] != PromiseState::Pending
                ==> next.promises[i] == self.promises[i]
        &&& forall|f: int|
            0 <= f < self.finalizers.len() ==> next.finalizers[f].owner == self.finalizers[f].owner
                && (self.finalizers[f].fired ==> next.finalizers[f].fired)
        &&& self.next_scope <= next.next_scope
        &&& forall|i: int|
            0 <= i < next.frames.len() && next.frames[i].id < self.next_scope
                ==> self.scope_open(next.frames[i].id)
    }
}

/// The state the embedding interface keeps for one environment.
pub struct NapiHost {
    env: NapiEnv,
    entities: Vec<Entity>,
    handles: Vec<Handle>,
    frames: Vec<Frame>,
    next_scope: u64,
    exception: Option<usize>,
    external_memory: i64,
    refs: Vec<RefSlot>,
    finalizers: Vec<FinalizerSlot>,
    promises: Vec<PromiseState>,
    props: Vec<Prop>,
    wraps: Vec<WrapSlot>,
    instance: Option<InstanceSlot>,
    hooks: Vec<HookSlot>,
}

impl View for NapiHost {
    type V = HostView;

    closed spec fn view(&self) -> HostView {
        HostView {
            env: self.env,
            values: self.entities@.map_values(|e: Entity| e@),
            handles: self.handles@,
            frames: self.frames@,
            next_scope: self.next_scope,
            exception: self.exception,
            external_memory: self.external_memory,
            refs: self.refs@,
            finalizers: self.finalizers@,
            promises: self.promises@,
            props: self.props@.map_values(|p: Prop| p@),
            wraps: self.wraps@,
            instance: self.instance,
            hooks: self.hooks@,
        }
    }
}

/// An entity holding a payload, with no integrity flag set.
pub(crate) fn plain(payload: Payload) -> (r: Entity)
    ensures
        r@ == (ValueView { data: payload@, frozen: false, sealed: false, collected: false }),
{
    Entity { payload, frozen: false, sealed: false, collected: false }
}

impl NapiHost {
    /// A host for one environment, holding its singletons (the global object, `undefined`,
    /// `null`, `false`, `true`) and the root scope.
    pub fn new(env: NapiEnv) -> (r: NapiHost)
        ensures
            r@.wf(),
            r@.env == env,
            r@.handles.len() == 0,
            r@.frames == seq![Frame { id: ROOT_SCOPE, escapable: false, escaped: false }],
            r@.values.len() == TRUE_SLOT + 1,
            r@.exception is None,
            r@.next_scope == 1,
            r@.external_memory == 0,
            r@.refs.len() == 0,
            r@.finalizers.len() == 0,
            r@.promises.len() == 0,
            r@.props.len() == 0,
            r@.wraps.len() == 0,
            r@.instance is None,
            r@.hooks.len() == 0,
    {
        let mut entities: Vec<Entity> = Vec::new();
        entities.push(plain(Payload::Global));
        entities.push(plain(Payload::Undefined));
        entities.push(plain(Payload::Null));
        entities.push(plain(Payload::Bool(false)));
        entities.push(plain(Payload::Bool(true)));
        let mut frames: Vec<Frame> = Vec::new();
        frames.push(Frame { id: ROOT_SCOPE, escapable: false, escaped: false });
        let handles: Vec<Handle> = Vec::new();
        let r = NapiHost { env, entities, handles, frames, next_scope: 1,
            exception: None,
            external_memory: 0,
            refs: Vec::new(),
            finalizers: Vec::new(),
            promises: Vec::new(),
            props: Vec::new(),
            wraps: Vec::new(),
            instance: None,
            hooks: Vec::new(),
        };
        assert(r@.values[GLOBAL_SLOT as int].data == Data::Global);
        assert(r@.values[UNDEFINED_SLOT as int].data == Data::Undefined);
        assert(r@.values[NULL_SLOT as int].data == Data::Null);
        assert(r@.values[FALSE_SLOT as int].data == Data::Bool(false));
        assert(r@.values[TRUE_SLOT as int].data == Data::Bool(true));
        assert(r@.frames =~= seq![Frame { id: ROOT_SCOPE, escapable: false, escaped: false }]);
        r
    }

    /// The environment this host serves.
    pub fn env(&self) -> (r: NapiEnv)
        ensures
            r == self@.env,
    {
        self.env
    }

    /// Adds a value, returning its slot.
    pub(crate) fn add_value(&mut self, e: Entity) -> (r: usize)
        requires
            old(self)@.wf(),
            !e@.collected,
        ensures
            r == old(self)@.values.len(),
            final(self)@ == (HostView { values: old(self)@.values.push(e@), ..old(self)@ }),
            final(self)@.wf(),
            old(self)@.succeeds(final(self)@),
    {
        let r = self.entities.len();
        let ghost before = self.entities@;
        self.entities.push(e);
        let _ = self.entities.len();
        proof {
            assert(self.entities@.map_values(|e: Entity| e@) =~= before.map_values(
                |e: Entity| e@,
            ).push(e@));
        }
        assert(self@ =~= (HostView { values: old(self)@.values.push(e@), ..old(self)@ }));
        r
    }

    /// Makes a new handle to the value in `target`, in the innermost open scope.
    pub(crate) fn new_handle(&mut self, target: usize) -> (r: JsValue)
        requires
            old(self)@.wf(),
            target < old(self)@.values.len(),
            !old(self)@.values[target as int].collected,
        ensures
            r == (JsValue { env: old(self)@.env, raw: old(self)@.handles.len() as usize }),
            final(self)@ == (HostView {
                handles: old(self)@.handles.push(Handle { target, scope: old(self)@.top().id }),
                ..old(self)@
            }),
            final(self)@.wf(),
            final(self)@.valid(r),
            old(self)@.succeeds(final(self)@),
    {
        let raw = self.handles.len();
        let top = self.frames[self.frames.len() - 1].id;
        self.handles.push(Handle { target, scope: top });
        let _ = self.handles.len();
        assert(self@ =~= (HostView {
            handles: old(self)@.handles.push(Handle { target, scope: old(self)@.top().id }),
            ..old(self)@
        }));
        assert(self@.scope_open(top)) by {
            assert(self@.frames[self@.frames.len() - 1].id == top);
        }
        JsValue { env: self.env, raw }
    }

    /// Adds a value and makes a handle to it in the innermost open scope.
    pub(crate) fn create(&mut self, e: Entity) -> (r: JsValue)
        requires
            old(self)@.wf(),
            !e@.collected,
        ensures
            r == (JsValue { env: old(self)@.env, raw: old(self)@.handles.len() as usize }),
            final(self)@ == (HostView {
                values: old(self)@.values.push(e@),
                handles: old(self)@.handles.push(
                    Handle { target: old(self)@.values.len() as usize, scope: old(self)@.top().id },
                ),
                ..old(self)@
            }),
            final(self)@.wf(),
            final(self)@.valid(r),
            final(self)@.data(r.raw) == e@.data,
            old(self)@.succeeds(final(self)@),
    {
        let slot = self.add_value(e);
        let n = self.handles.len();
        let r = self.new_handle(slot);
        assert(r.raw == n);
        assert(self@ =~= (HostView {
            values: old(self)@.values.push(e@),
            handles: old(self)@.handles.push(
                Handle { target: old(self)@.values.len() as usize, scope: old(self)@.top().id },
            ),
            ..old(self)@
        }));
        assert(self@.handles[r.raw as int].target == slot);
        assert(self@.values[slot as int] == e@);
        r
    }

    /// The slot of the value a live handle points at; `InvalidArg` for a handle whose scope
    /// has closed or that this host never made.
    pub(crate) fn target_of(&self, v: JsValue) -> (r: NapiResult<usize>)
        requires
            self@.wf(),
        ensures
            r is Ok <==> self@.valid(v),
            r matches Ok(t) ==> t == self@.target(v.raw),
            r matches Err(e) ==> e == NapiStatus::InvalidArg,
    {
        if v.raw >= self.handles.len() || v.env != self.env {
            return Err(NapiStatus::InvalidArg);
        }
        let h = self.handles[v.raw];
        if self.scope_index(h.scope).is_some() && !self.entities[h.target].collected {
            Ok(h.target)
        } else {
            Err(NapiStatus::InvalidArg)
        }
    }

    /// The slot of the value behind a handle; `InvalidArg` for a dead handle.
    pub fn slot(&self, v: JsValue) -> (r: NapiResult<usize>)
        requires
            self@.wf(),
        ensures
            r is Ok <==> self@.valid(v),
            r matches Ok(t) ==> t == self@.target(v.raw),
            r matches Err(e) ==> e == NapiStatus::InvalidArg,
    {
        self.target_of(v)
    }

    /// The position of an open scope in the stack of frames.
    pub(crate) fn scope_index(&self, id: u64) -> (r: Option<usize>)
        requires
            self@.wf(),
        ensures
            r is Some <==> self@.scope_open(id),
            r matches Some(i) ==> i < self@.frames.len() && self@.frames[i as int].id == id,
    {
        let mut i: usize = 0;
        while i < self.frames.len()
            invariant
                i <= self.frames@.len(),
                self@.frames == self.frames@,
                forall|j: int| 0 <= j < i ==> self.frames@[j].id != id,
            decreases self.frames@.len() - i,
        {
            if self.frames[i].id == id {
                return Some(i);
            }
            i = i + 1;
        }
        None
    }

    /// Opens a scope on top of the stack; `GenericFailure` once every scope id is spent.
    pub(crate) fn open_frame(&mut self, escapable: bool) -> (r: NapiResult<u64>)
        requires
            old(self)@.wf(),
        ensures
            final(self)@.wf(),
            old(self)@.succeeds(final(self)@),
            old(self)@.next_scope == u64::MAX ==> r == Err::<u64, NapiStatus>(
                NapiStatus::GenericFailure,
            ) && final(self)@ == old(self)@,
            old(self)@.next_scope < u64::MAX ==> r == Ok::<u64, NapiStatus>(old(self)@.next_scope)
                && final(self)@ == (HostView {
                frames: old(self)@.frames.push(
                    Frame { id: old(self)@.next_scope, escapable, escaped: false },
                ),
                next_scope: (old(self)@.next_scope + 1) as u64,
                ..old(self)@
            }),
    {
        if self.next_scope == u64::MAX {
            return Err(NapiStatus::GenericFailure);
        }
        let id = self.next_scope;
        self.frames.push(Frame { id, escapable, escaped: false });
        self.next_scope = id + 1;
        assert(self@ =~= (HostView {
            frames: old(self)@.frames.push(Frame { id, escapable, escaped: false }),
            next_scope: (id + 1) as u64,
            ..old(self)@
        }));
        assert forall|i: int|
            0 <= i < self@.frames.len() && self@.frames[i].id < old(self)@.next_scope implies old(self)@.scope_open(self@.frames[i].id) by {
            assert(i < old(self)@.frames.len());
            assert(old(self)@.frames[i] == self@.frames[i]);
        }
        Ok(id)
    }

    /// Closes the innermost scope, which must be the one named; `HandleScopeMismatch` when
    /// another scope is innermost (and always for the root scope), leaving the stack as it was.
    pub(crate) fn close_frame(&mut self, id: u64) -> (r: NapiResult<()>)
        requires
            old(self)@.wf(),
        ensures
            final(self)@.wf(),
            old(self)@.succeeds(final(self)@),
            old(self)@.frames.len() > 1 && old(self)@.top().id == id ==> r == Ok::<(), NapiStatus>(
                (),
            ) && final(self)@ == (HostView {
                frames: old(self)@.frames.drop_last(),
                ..old(self)@
            }),
            !(old(self)@.frames.len() > 1 && old(self)@.top().id == id) ==> r == Err::<
                (),
                NapiStatus,
            >(NapiStatus::HandleScopeMismatch) && final(self)@ == old(self)@,
    {
        let n = self.frames.len();
        if n > 1 && self.frames[n - 1].id == id {
            self.frames.pop();
            assert(self@ =~= (HostView { frames: old(self)@.frames.drop_last(), ..old(self)@ }));
            assert forall|i: int|
                0 <= i < self@.frames.len() && self@.frames[i].id < old(self)@.next_scope implies old(self)@.scope_open(self@.frames[i].id) by {
                assert(old(self)@.frames[i] == self@.frames[i]);
            }
            Ok(())
        } else {
            Err(NapiStatus::HandleScopeMismatch)
        }
    }

    /// Promotes a handle out of the escapable scope `id` into the scope just outside it.
    /// Each escapable scope allows this once: later calls fail with `EscapeCalledTwice`.
    pub(crate) fn escape_handle(&mut self, id: u64, v: JsValue) -> (r: NapiResult<JsValue>)
        requires
            old(self)@.wf(),
        ensures
            final(self)@.wf(),
            old(self)@.succeeds(final(self)@),
            r is Ok <==> escape_allowed(old(self)@, id, v),
            !old(self)@.scope_open(id) ==> r == Err::<JsValue, NapiStatus>(
                NapiStatus::InvalidArg,
            ),
            old(self)@.scope_open(id) && old(self)@.frames[frame_at(old(self)@, id)].escaped
                ==> r == Err::<JsValue, NapiStatus>(NapiStatus::EscapeCalledTwice),
            r is Err ==> final(self)@.frames == old(self)@.frames && final(self)@.handles
                == old(self)@.handles,
            r matches Ok(e) ==> {
                let i = frame_at(old(self)@, id);
                &&& e == (JsValue { env: old(self)@.env, raw: old(self)@.handles.len() as usize })
                &&& final(self)@ == (HostView {
                    frames: old(self)@.frames.update(
                        i,
                        Frame { escaped: true, ..old(self)@.frames[i] },
                    ),
                    handles: old(self)@.handles.push(
                        Handle {
                            target: old(self)@.target(v.raw),
                            scope: old(self)@.frames[i - 1].id,
                        },
                    ),
                    ..old(self)@
                })
            },
    {
        let idx = match self.scope_index(id) {
            Some(i) => i,
            None => return Err(NapiStatus::InvalidArg),
        };
        proof {
            lemma_frame_at(self@, id, idx as int);
        }
        let f = self.frames[idx];
        if f.escaped {
            return Err(NapiStatus::EscapeCalledTwice);
        }
        if !f.escapable || idx == 0 {
            return Err(NapiStatus::InvalidArg);
        }
        let target = match self.target_of(v) {
            Ok(t) => t,
            Err(e) => return Err(e),
        };
        let outer = self.frames[idx - 1].id;
        let raw = self.handles.len();
        self.frames.set(idx, Frame { id: f.id, escapable: f.escapable, escaped: true });
        self.handles.push(Handle { target, scope: outer });
        let _ = self.handles.len();
        let ghost i = idx as int;
        assert(self@ =~= (HostView {
            frames: old(self)@.frames.update(i, Frame { escaped: true, ..old(self)@.frames[i] }),
            handles: old(self)@.handles.push(
                Handle { target: old(self)@.target(v.raw), scope: old(self)@.frames[i - 1].id },
            ),
            ..old(self)@
        }));
        assert forall|k: int|
            0 <= k < self@.frames.len() && self@.frames[k].id < old(self)@.next_scope implies old(self)@.scope_open(self@.frames[k].id) by {
            assert(old(self)@.frames[k].id == self@.frames[k].id);
        }
        Ok(JsValue { env: self.env, raw })
    }

    /// Replaces the value in a slot.
    pub(crate) fn set_value(&mut self, slot: usize, e: Entity)
        requires
            old(self)@.wf(),
            slot < old(self)@.values.len(),
            slot > TRUE_SLOT || e@.data == old(self)@.values[slot as int].data,
            !old(self)@.values[slot as int].collected,
            !e@.collected,
        ensures
            final(self)@ == (HostView { values: old(self)@.values.update(slot as int, e@), ..old(self)@ }),
            final(self)@.wf(),
            old(self)@.succeeds(final(self)@),
    {
        let ghost before = self.entities@;
        self.entities.set(slot, e);
        proof {
            assert(self.entities@.map_values(|e: Entity| e@) =~= before.map_values(
                |e: Entity| e@,
            ).update(slot as int, e@));
        }
        assert(self@ =~= (HostView { values: old(self)@.values.update(slot as int, e@), ..old(self)@ }));
    }

    /// The pending exception, if any.
    pub(crate) fn exception(&self) -> (r: Option<usize>)
        ensures
            r == self@.exception,
    {
        self.exception
    }

    /// Sets or clears the pending exception.
    pub(crate) fn set_exception(&mut self, e: Option<usize>)
        requires
            old(self)@.wf(),
            e matches Some(x) ==> x < old(self)@.values.len() && !old(self)@.values[x as int].collected,
        ensures
            final(self)@ == (HostView { exception: e, ..old(self)@ }),
            final(self)@.wf(),
            old(self)@.succeeds(final(self)@),
    {
        self.exception = e;
        assert(self@ =~= (HostView { exception: e, ..old(self)@ }));
    }

    /// The amount of externally allocated memory reported so far.
    pub(crate) fn external_memory(&self) -> (r: i64)
        ensures
            r == self@.external_memory,
    {
        self.external_memory
    }

    /// Records a new amount of externally allocated memory.
    pub(crate) fn set_external_memory(&mut self, m: i64)
        requires
            old(self)@.wf(),
        ensures
            final(self)@ == (HostView { external_memory: m, ..old(self)@ }),
            final(self)@.wf(),
            old(self)@.succeeds(final(self)@),
    {
        self.external_memory = m;
        assert(self@ =~= (HostView { external_memory: m, ..old(self)@ }));
    }

    /// Adds a persistent reference to the value in `target`, returning its id.
    pub(crate) fn add_ref(&mut self, target: usize, count: u32) -> (r: usize)
        requires
            old(self)@.wf(),
            target < old(self)@.values.len(),
        ensures
            r == old(self)@.refs.len(),
            final(self)@ == (HostView {
                refs: old(self)@.refs.push(RefSlot { target, count, deleted: false }),
                ..old(self)@
            }),
            final(self)@.wf(),
            old(self)@.succeeds(final(self)@),
    {
        let r = self.refs.len();
        self.refs.push(RefSlot { target, count, deleted: false });
        assert(self@ =~= (HostView {
            refs: old(self)@.refs.push(RefSlot { target, count, deleted: false }),
            ..old(self)@
        }));
        r
    }

    /// The reference with this id, if there is one.
    pub(crate) fn get_ref(&self, id: usize) -> (r: Option<RefSlot>)
        ensures
            id < self@.refs.len() ==> r == Some(self@.refs[id as int]),
            id >= self@.refs.len() ==> r is None,
    {
        if id < self.refs.len() {
            Some(self.refs[id])
        } else {
            None
        }
    }

    /// Replaces the count and deleted flag of a reference.
    pub(crate) fn set_ref(&mut self, id: usize, count: u32, deleted: bool)
        requires
            old(self)@.wf(),
            id < old(self)@.refs.len(),
        ensures
            final(self)@ == (HostView {
                refs: old(self)@.refs.update(
                    id as int,
                    RefSlot { count, deleted, ..old(self)@.refs[id as int] },
                ),
                ..old(self)@
            }),
            final(self)@.wf(),
            old(self)@.succeeds(final(self)@),
    {
        let t = self.refs[id].target;
        self.refs.set(id, RefSlot { target: t, count, deleted });
        assert(self@ =~= (HostView {
            refs: old(self)@.refs.update(
                id as int,
                RefSlot { count, deleted, ..old(self)@.refs[id as int] },
            ),
            ..old(self)@
        }));
    }

    /// Attaches a finalizer to the value in `owner`, returning its id.
    pub(crate) fn add_finalizer(&mut self, owner: usize) -> (r: usize)
        requires
            old(self)@.wf(),
            owner < old(self)@.values.len(),
        ensures
            r == old(self)@.finalizers.len(),
            final(self)@ == (HostView {
                finalizers: old(self)@.finalizers.push(FinalizerSlot { owner, fired: false }),
                ..old(self)@
            }),
            final(self)@.wf(),
            old(self)@.succeeds(final(self)@),
    {
        let r = self.finalizers.len();
        self.finalizers.push(FinalizerSlot { owner, fired: false });
        assert(self@ =~= (HostView {
            finalizers: old(self)@.finalizers.push(FinalizerSlot { owner, fired: false }),
            ..old(self)@
        }));
        assert forall|f: int| 0 <= f < old(self)@.finalizers.len() implies self@.finalizers[f]
            == old(self)@.finalizers[f] by {}
        r
    }

    /// Whether a live handle or a counted reference keeps the value in `slot` alive.
    pub(crate) fn is_rooted(&self, slot: usize) -> (r: bool)
        requires
            self@.wf(),
        ensures
            r == rooted(self@, slot),
    {
        if self.exception == Some(slot) {
            return true;
        }
        let mut q: usize = 0;
        while q < self.props.len()
            invariant
                q <= self@.props.len(),
                self@.wf(),
                forall|j: int| 0 <= j < q ==> self@.props[j].value != Some(slot),
            decreases self@.props.len() - q,
        {
            if self.props[q].value == Some(slot) {
                assert(self@.props[q as int].value == Some(slot));
                return true;
            }
            q = q + 1;
        }
        let mut p: usize = 0;
        while p < self.promises.len()
            invariant
                p <= self@.promises.len(),
                self@.wf(),
                forall|j: int| 0 <= j < p ==> settled_slot(self@.promises[j]) != Some(slot),
            decreases self@.promises.len() - p,
        {
            let settled = match self.promises[p] {
                PromiseState::Pending => false,
                PromiseState::Fulfilled(v) => v == slot,
                PromiseState::Rejected(v) => v == slot,
            };
            if settled {
                return true;
            }
            p = p + 1;
        }
        let mut i: usize = 0;
        while i < self.handles.len()
            invariant
                self@.wf(),
                i <= self@.handles.len(),
                forall|j: int|
                    0 <= j < i ==> !(self@.live(j as usize) && self@.handles[j].target == slot),
            decreases self@.handles.len() - i,
        {
            let h = self.handles[i];
            if h.target == slot && self.scope_index(h.scope).is_some()
                && !self.entities[h.target].collected {
                assert(self@.live(i) && self@.handles[i as int].target == slot);
                return true;
            }
            i = i + 1;
        }
        let mut k: usize = 0;
        while k < self.refs.len()
            invariant
                self@.wf(),
                k <= self@.refs.len(),
                forall|j: int|
                    0 <= j < self@.handles.len() ==> !(self@.live(j as usize)
                        && self@.handles[j].target == slot),
                forall|j: int|
                    0 <= j < k ==> !(!self@.refs[j].deleted && self@.refs[j].count > 0
                        && self@.refs[j].target == slot),
            decreases self@.refs.len() - k,
        {
            let rf = self.refs[k];
            if !rf.deleted && rf.count > 0 && rf.target == slot {
                return true;
            }
            k = k + 1;
        }
        proof {
            if rooted(self@, slot) {
                if exists|j: int|
                    0 <= j < self@.handles.len() && self@.live(j as usize)
                        && self@.handles[j].target == slot {
                    let j = choose|j: int|
                        0 <= j < self@.handles.len() && self@.live(j as usize)
                            && self@.handles[j].target == slot;
                    assert(false);
                }
            }
        }
        false
    }

    /// The host reports that the value in `slot` was garbage-collected: every finalizer
    /// attached to it that has not fired fires now, and their ids are returned in order.
    /// Refused with `GenericFailure`, changing nothing, for a singleton, a value already
    /// collected, or one that a live handle or a counted reference still keeps alive.
    pub fn collect(&mut self, slot: usize) -> (r: NapiResult<Vec<usize>>)
        requires
            old(self)@.wf(),
        ensures
            final(self)@.wf(),
            old(self)@.succeeds(final(self)@),
            r is Ok <==> collectible(old(self)@, slot),
            r is Err ==> r == Err::<Vec<usize>, NapiStatus>(NapiStatus::GenericFailure)
                && final(self)@ == old(self)@,
            r matches Ok(ids) ==> {
                &&& final(self)@ == (HostView {
                    values: old(self)@.values.update(
                        slot as int,
                        ValueView { collected: true, ..old(self)@.values[slot as int] },
                    ),
                    finalizers: fire_all(old(self)@.finalizers, slot),
                    ..old(self)@
                })
                &&& forall|k: usize|
                    #![trigger ids@.contains(k)]
                    ids@.contains(k) <==> (k < old(self)@.finalizers.len()
                        && old(self)@.finalizers[k as int].owner == slot
                        && !old(self)@.finalizers[k as int].fired)
                &&& ids@.no_duplicates()
            },
    {
        if slot <= TRUE_SLOT || slot >= self.entities.len() {
            return Err(NapiStatus::GenericFailure);
        }
        if self.entities[slot].collected || self.is_rooted(slot) {
            return Err(NapiStatus::GenericFailure);
        }
        let ghost before = self.entities@;
        let e = &self.entities[slot];
        let p = copy_payload(&e.payload);
        let updated = Entity { payload: p, frozen: e.frozen, sealed: e.sealed, collected: true };
        self.entities.set(slot, updated);
        proof {
            assert(self.entities@.map_values(|e: Entity| e@) =~= before.map_values(
                |e: Entity| e@,
            ).update(slot as int, ValueView { collected: true, ..old(self)@.values[slot as int] }));
        }
        let ids = fire_finalizers(&mut self.finalizers, slot);
        assert(self.finalizers@ =~= fire_all(old(self)@.finalizers, slot));
        assert(self@ =~= (HostView {
            values: old(self)@.values.update(
                slot as int,
                ValueView { collected: true, ..old(self)@.values[slot as int] },
            ),
            finalizers: fire_all(old(self)@.finalizers, slot),
            ..old(self)@
        }));
        Ok(ids)
    }

    /// Whether the finalizer `f` exists and has fired.
    pub fn finalizer_fired(&self, f: usize) -> (r: bool)
        ensures
            r == (f < self@.finalizers.len() && self@.finalizers[f as int].fired),
    {
        f < self.finalizers.len() && self.finalizers[f].fired
    }

    /// How many finalizers have been attached.
    pub(crate) fn finalizer_count(&self) -> (r: usize)
        ensures
            r == self@.finalizers.len(),
    {
        self.finalizers.len()
    }

    /// Adds a pending promise, returning its id.
    pub(crate) fn add_promise(&mut self) -> (r: usize)
        requires
            old(self)@.wf(),
        ensures
            r == old(self)@.promises.len(),
            final(self)@ == (HostView {
                promises: old(self)@.promises.push(PromiseState::Pending),
                ..old(self)@
            }),
            final(self)@.wf(),
            old(self)@.succeeds(final(self)@),
    {
        let r = self.promises.len();
        self.promises.push(PromiseState::Pending);
        assert(self@ =~= (HostView {
            promises: old(self)@.promises.push(PromiseState::Pending),
            ..old(self)@
        }));
        assert forall|i: int|
            0 <= i < old(self)@.promises.len() implies self@.promises[i] == old(self)@.promises[i] by {}
        r
    }

    /// The state of promise `id`, if there is one.
    pub(crate) fn promise_state(&self, id: usize) -> (r: Option<PromiseState>)
        ensures
            id < self@.promises.len() ==> r == Some(self@.promises[id as int]),
            id >= self@.promises.len() ==> r is None,
    {
        if id < self.promises.len() {
            Some(self.promises[id])
        } else {
            None
        }
    }

    /// Settles the pending promise `id`.
    pub(crate) fn settle(&mut self, id: usize, state: PromiseState)
        requires
            old(self)@.wf(),
            id < old(self)@.promises.len(),
            old(self)@.promises[id as int] == PromiseState::Pending,
            settled_slot(state) matches Some(v) ==> v < old(self)@.values.len()
                && !old(self)@.values[v as int].collected,
        ensures
            final(self)@ == (HostView {
                promises: old(self)@.promises.update(id as int, state),
                ..old(self)@
            }),
            final(self)@.wf(),
            old(self)@.succeeds(final(self)@),
    {
        self.promises.set(id, state);
        assert(self@ =~= (HostView {
            promises: old(self)@.promises.update(id as int, state),
            ..old(self)@
        }));
    }

    /// Appends a write to the property log.
    pub(crate) fn add_prop(&mut self, owner: usize, key: Key, value: Option<usize>)
        requires
            old(self)@.wf(),
            owner < old(self)@.values.len(),
            value matches Some(v) ==> v < old(self)@.values.len()
                && !old(self)@.values[v as int].collected,
        ensures
            final(self)@ == (HostView {
                props: old(self)@.props.push(PropView { owner, key: key@, value }),
                ..old(self)@
            }),
            final(self)@.wf(),
            old(self)@.succeeds(final(self)@),
    {
        let ghost before = self.props@;
        let ghost kv = key@;
        self.props.push(Prop { owner, key, value });
        proof {
            assert(self.props@.map_values(|p: Prop| p@) =~= before.map_values(|p: Prop| p@).push(
                PropView { owner, key: kv, value },
            ));
        }
        assert(self@ =~= (HostView {
            props: old(self)@.props.push(PropView { owner, key: kv, value }),
            ..old(self)@
        }));
    }

    /// The latest write to `owner[key]`: `None` when there is none, `Some(None)` for a
    /// deletion, `Some(Some(v))` for a value.
    pub(crate) fn find_prop(&self, owner: usize, key: &Key) -> (r: Option<Option<usize>>)
        ensures
            r == (match last_write(self@.props, owner, key@) {
                Some(p) => Some(p.value),
                None => None,
            }),
    {
        let mut i: usize = self.props.len();
        assert(self@.props.subrange(0, i as int) =~= self@.props);
        while i > 0
            invariant
                i <= self@.props.len(),
                self@.props.len() == self.props@.len(),
                forall|j: int| 0 <= j < self.props@.len() ==> self@.props[j] == self.props@[j]@,
                last_write(self@.props, owner, key@) == last_write(
                    self@.props.subrange(0, i as int),
                    owner,
                    key@,
                ),
            decreases i,
        {
            let p = &self.props[i - 1];
            let ghost sub = self@.props.subrange(0, i as int);
            assert(sub.last() == self@.props[i - 1]);
            if p.owner == owner && p.key.same(key) {
                return Some(p.value);
            }
            assert(sub.drop_last() =~= self@.props.subrange(0, i - 1));
            i = i - 1;
        }
        assert(self@.props.subrange(0, 0) =~= Seq::<PropView>::empty());
        None
    }

    /// The active wrap of the value in `owner`, if any.
    pub(crate) fn find_wrap(&self, owner: usize) -> (r: Option<usize>)
        ensures
            r matches Some(i) ==> i < self@.wraps.len() && self@.wraps[i as int].owner == owner
                && self@.wraps[i as int].active,
            r is None ==> !wrapped(self@, owner),
    {
        let mut i: usize = 0;
        while i < self.wraps.len()
            invariant
                i <= self@.wraps.len(),
                forall|j: int| 0 <= j < i ==> !(self@.wraps[j].owner == owner && self@.wraps[j].active),
            decreases self@.wraps.len() - i,
        {
            let w = self.wraps[i];
            if w.owner == owner && w.active {
                return Some(i);
            }
            i = i + 1;
        }
        None
    }

    /// Wraps the native token `data` in the value in `owner`, with a new finalizer that
    /// reclaims it; returns the finalizer's id.
    pub(crate) fn add_wrap(&mut self, owner: usize, data: u64) -> (r: usize)
        requires
            old(self)@.wf(),
            owner < old(self)@.values.len(),
            !wrapped(old(self)@, owner),
        ensures
            r == old(self)@.finalizers.len(),
            final(self)@ == (HostView {
                finalizers: old(self)@.finalizers.push(FinalizerSlot { owner, fired: false }),
                wraps: old(self)@.wraps.push(WrapSlot { owner, data, finalizer: r, active: true }),
                ..old(self)@
            }),
            final(self)@.wf(),
            old(self)@.succeeds(final(self)@),
    {
        let f = self.add_finalizer(owner);
        self.wraps.push(WrapSlot { owner, data, finalizer: f, active: true });
        assert(self@ =~= (HostView {
            finalizers: old(self)@.finalizers.push(FinalizerSlot { owner, fired: false }),
            wraps: old(self)@.wraps.push(WrapSlot { owner, data, finalizer: f, active: true }),
            ..old(self)@
        }));
        f
    }

    /// Takes wrap `i` away: it is no longer in place, and its finalizer is settled, so it
    /// never fires.
    pub(crate) fn drop_wrap(&mut self, i: usize)
        requires
            old(self)@.wf(),
            i < old(self)@.wraps.len(),
        ensures
            final(self)@ == (HostView {
                wraps: old(self)@.wraps.update(i as int, WrapSlot { active: false, ..old(self)@.wraps[i as int] }),
                finalizers: old(self)@.finalizers.update(
                    old(self)@.wraps[i as int].finalizer as int,
                    FinalizerSlot { fired: true, ..old(self)@.finalizers[old(self)@.wraps[i as int].finalizer as int] },
                ),
                ..old(self)@
            }),
            final(self)@.wf(),
            old(self)@.succeeds(final(self)@),
    {
        let w = self.wraps[i];
        self.wraps.set(i, WrapSlot { owner: w.owner, data: w.data, finalizer: w.finalizer, active: false });
        let f = self.finalizers[w.finalizer];
        self.finalizers.set(w.finalizer, FinalizerSlot { owner: f.owner, fired: true });
        assert(self@ =~= (HostView {
            wraps: old(self)@.wraps.update(i as int, WrapSlot { active: false, ..old(self)@.wraps[i as int] }),
            finalizers: old(self)@.finalizers.update(
                old(self)@.wraps[i as int].finalizer as int,
                FinalizerSlot { fired: true, ..old(self)@.finalizers[old(self)@.wraps[i as int].finalizer as int] },
            ),
            ..old(self)@
        }));
    }

    /// The wrap with this id.
    pub(crate) fn wrap_at(&self, i: usize) -> (r: WrapSlot)
        requires
            i < self@.wraps.len(),
        ensures
            r == self@.wraps[i as int],
    {
        self.wraps[i]
    }

    /// The instance data of the environment.
    pub(crate) fn instance(&self) -> (r: Option<InstanceSlot>)
        ensures
            r == self@.instance,
    {
        self.instance
    }

    /// Replaces the instance data of the environment.
    pub(crate) fn set_instance(&mut self, data: Option<InstanceSlot>)
        requires
            old(self)@.wf(),
        ensures
            final(self)@ == (HostView { instance: data, ..old(self)@ }),
            final(self)@.wf(),
            old(self)@.succeeds(final(self)@),
    {
        self.instance = data;
        assert(self@ =~= (HostView { instance: data, ..old(self)@ }));
    }

    /// Adds a cleanup hook, returning its id.
    pub(crate) fn add_hook(&mut self, token: u64) -> (r: usize)
        requires
            old(self)@.wf(),
        ensures
            r == old(self)@.hooks.len(),
            final(self)@ == (HostView {
                hooks: old(self)@.hooks.push(HookSlot { token, removed: false }),
                ..old(self)@
            }),
            final(self)@.wf(),
            old(self)@.succeeds(final(self)@),
    {
        let r = self.hooks.len();
        self.hooks.push(HookSlot { token, removed: false });
        assert(self@ =~= (HostView {
            hooks: old(self)@.hooks.push(HookSlot { token, removed: false }),
            ..old(self)@
        }));
        r
    }

    /// The cleanup hook with this id, if there is one.
    pub(crate) fn hook(&self, id: usize) -> (r: Option<HookSlot>)
        ensures
            id < self@.hooks.len() ==> r == Some(self@.hooks[id as int]),
            id >= self@.hooks.len() ==> r is None,
    {
        if id < self.hooks.len() {
            Some(self.hooks[id])
        } else {
            None
        }
    }

    /// Marks cleanup hook `id` as removed.
    pub(crate) fn remove_hook(&mut self, id: usize)
        requires
            old(self)@.wf(),
            id < old(self)@.hooks.len(),
        ensures
            final(self)@ == (HostView {
                hooks: old(self)@.hooks.update(id as int, HookSlot { removed: true, ..old(self)@.hooks[id as int] }),
                ..old(self)@
            }),
            final(self)@.wf(),
            old(self)@.succeeds(final(self)@),
    {
        let h = self.hooks[id];
        self.hooks.set(id, HookSlot { token: h.token, removed: true });
        assert(self@ =~= (HostView {
            hooks: old(self)@.hooks.update(id as int, HookSlot { removed: true, ..old(self)@.hooks[id as int] }),
            ..old(self)@
        }));
    }

    /// The environment exits: the cleanup hooks still registered run, most recently added
    /// first, and then the finalizer of the instance data, if it has not fired. Each runs
    /// once: the hooks are marked removed and the instance data finalized.
    pub fn teardown(&mut self) -> (r: Teardown)
        requires
            old(self)@.wf(),
        ensures
            final(self)@.wf(),
            old(self)@.succeeds(final(self)@),
            r.hooks@ == pending_hooks(old(self)@.hooks),
            final(self)@.hooks.len() == old(self)@.hooks.len(),
            forall|i: int| 0 <= i < final(self)@.hooks.len() ==> final(self)@.hooks[i].removed,
            r.instance == (match old(self)@.instance {
                Some(i) => if i.finalized {
                    None
                } else {
                    Some(i.data)
                },
                None => None,
            }),
            final(self)@.instance == (match old(self)@.instance {
                Some(i) => Some(InstanceSlot { data: i.data, finalized: true }),
                None => None,
            }),
    {
        let hooks = self.drain_hooks();
        let ghost mid = self@;
        let instance = match self.instance {
            Some(i) => {
                self.set_instance(Some(InstanceSlot { data: i.data, finalized: true }));
                proof {
                    crate::descriptor::lemma_succeeds_trans(old(self)@, mid, self@);
                }
                if i.finalized {
                    None
                } else {
                    Some(i.data)
                }
            },
            None => None,
        };
        Teardown { hooks, instance }
    }

    /// Runs the cleanup hooks still registered, most recently added first, marking each
    /// removed.
    fn drain_hooks(&mut self) -> (r: Vec<u64>)
        requires
            old(self)@.wf(),
        ensures
            final(self)@ == (HostView { hooks: final(self)@.hooks, ..old(self)@ }),
            final(self)@.wf(),
            old(self)@.succeeds(final(self)@),
            r@ == pending_hooks(old(self)@.hooks),
            final(self)@.hooks.len() == old(self)@.hooks.len(),
            forall|i: int| 0 <= i < final(self)@.hooks.len() ==> final(self)@.hooks[i].removed,
    {
        let mut out: Vec<u64> = Vec::new();
        let mut i: usize = self.hooks.len();
        let ghost hs = self@.hooks;
        assert(hs.subrange(i as int, hs.len() as int) =~= Seq::<HookSlot>::empty());
        while i > 0
            invariant
                i <= hs.len(),
                self@ == (HostView { hooks: self@.hooks, ..old(self)@ }),
                self@.hooks.len() == hs.len(),
                hs == old(self)@.hooks,
                forall|j: int| 0 <= j < i ==> self@.hooks[j] == hs[j],
                forall|j: int| i <= j < hs.len() ==> self@.hooks[j].removed,
                out@ == pending_hooks(hs.subrange(i as int, hs.len() as int)),
            decreases i,
        {
            let h = self.hooks[i - 1];
            let ghost before = self@;
            self.hooks.set(i - 1, HookSlot { token: h.token, removed: true });
            assert(self@ =~= (HostView { hooks: self@.hooks, ..old(self)@ }));
            proof {
                let sub = hs.subrange(i - 1, hs.len() as int);
                assert(sub.drop_first() =~= hs.subrange(i as int, hs.len() as int));
                assert(sub[0] == hs[i - 1]);
                lemma_pending_hooks_cons(sub);
            }
            if !h.removed {
                out.push(h.token);
            }
            i = i - 1;
        }
        assert(hs.subrange(0, hs.len() as int) =~= hs);
        out
    }

    /// How many values the host holds.
    pub(crate) fn value_count(&self) -> (r: usize)
        ensures
            r == self@.values.len(),
    {
        self.entities.len()
    }

    /// The names of the string-keyed properties the value in `owner` has.
    pub(crate) fn property_names(&self, owner: usize) -> (r: Vec<String>)
        ensures
            r@.len() == own_names(self@, owner).len(),
            forall|i: int| 0 <= i < r@.len() ==> r@[i]@ == own_names(self@, owner)[i],
    {
        let mut out: Vec<String> = Vec::new();
        let mut i: usize = 0;
        while i < self.props.len()
            invariant
                i <= self@.props.len(),
                self@.props.len() == self.props@.len(),
                forall|j: int| 0 <= j < self.props@.len() ==> self@.props[j] == self.props@[j]@,
                out@.len() == names_in(self@, owner, self@.props.take(i as int)).len(),
                forall|j: int|
                    0 <= j < out@.len() ==> out@[j]@ == names_in(self@, owner, self@.props.take(i as int))[j],
            decreases self@.props.len() - i,
        {
            let p = &self.props[i];
            let ghost before = names_in(self@, owner, self@.props.take(i as int));
            proof {
                assert(self@.props.take(i + 1).drop_last() =~= self@.props.take(i as int));
                assert(self@.props.take(i + 1).last() == self@.props[i as int]);
            }
            if p.owner == owner {
                if let Key::Name(n) = &p.key {
                    let present = match self.find_prop(owner, &p.key) {
                        Some(Some(_)) => true,
                        _ => false,
                    };
                    if present && !contains_name(&out, n) {
                        proof {
                            assert(!before.contains(n@)) by {
                                if before.contains(n@) {
                                    let k = choose|k: int| 0 <= k < before.len() && before[k] == n@;
                                    assert(out@[k]@ == n@);
                                }
                            }
                        }
                        out.push(n.clone());
                    } else {
                        proof {
                            if present {
                                let k = choose|k: int| 0 <= k < out@.len() && out@[k]@ == n@;
                                assert(before[k] == n@);
                                assert(before.contains(n@));
                            }
                        }
                    }
                }
            }
            i = i + 1;
        }
        assert(self@.props.take(self@.props.len() as int) =~= self@.props);
        out
    }

    /// The value in a slot.
    pub(crate) fn entity(&self, slot: usize) -> (r: &Entity)
        requires
            slot < self@.values.len(),
        ensures
            r@ == self@.values[slot as int],
    {
        &self.entities[slot]
    }
}

/// The position of the open scope `id` in the stack.
pub open spec fn frame_at(h: HostView, id: u64) -> int {
    choose|i: int| 0 <= i < h.frames.len() && h.frames[i].id == id
}

/// Escaping `v` from scope `id` succeeds: the scope is open, escapable, not escaped
/// before, and the handle is valid.
pub open spec fn escape_allowed(h: HostView, id: u64, v: JsValue) -> bool {
    &&& h.scope_open(id)
    &&& h.frames[frame_at(h, id)].escapable
    &&& !h.frames[frame_at(h, id)].escaped
    &&& frame_at(h, id) > 0
    &&& h.valid(v)
}

/// In a well-formed state scope ids are unique, so `frame_at` finds the one position.
pub proof fn lemma_frame_at(h: HostView, id: u64, i: int)
    requires
        h.wf(),
        0 <= i < h.frames.len(),
        h.frames[i].id == id,
    ensures
        frame_at(h, id) == i,
{
    let j = frame_at(h, id);
    assert(0 <= j < h.frames.len() && h.frames[j].id == id);
    if j < i {
        assert(h.frames[j].id < h.frames[i].id);
    } else if i < j {
        assert(h.frames[i].id < h.frames[j].id);
    }
}

/// `after` is `before` with a new value holding `d` and a new handle `v` to it in the
/// innermost scope.
pub open spec fn created(before: HostView, after: HostView, v: JsValue, d: Data) -> bool {
    &&& v == (JsValue { env: before.env, raw: before.handles.len() as usize })
    &&& after == (HostView {
        values: before.values.push(ValueView { data: d, frozen: false, sealed: false, collected: false }),
        handles: before.handles.push(
            Handle { target: before.values.len() as usize, scope: before.top().id },
        ),
        ..before
    })
}

/// `after` is `before` with a new value holding `d`, a new handle `v` to it in the innermost
/// scope, and a finalizer attached to it.
pub open spec fn made_with_finalizer(before: HostView, after: HostView, v: JsValue, d: Data) -> bool {
    &&& v == (JsValue { env: before.env, raw: before.handles.len() as usize })
    &&& after == with_finalized_value(before, d)
}

/// `before` with a new value holding `d`, a new handle to it in the innermost scope, and a
/// finalizer attached to it.
pub open spec fn with_finalized_value(before: HostView, d: Data) -> HostView {
    HostView {
        values: before.values.push(ValueView { data: d, frozen: false, sealed: false, collected: false }),
        handles: before.handles.push(
            Handle { target: before.values.len() as usize, scope: before.top().id },
        ),
        finalizers: before.finalizers.push(
            FinalizerSlot { owner: before.values.len() as usize, fired: false },
        ),
        ..before
    }
}

/// `after` is `before` with a new handle `v`, in the innermost scope, to the existing value
/// in `slot`.
pub open spec fn handle_made(before: HostView, after: HostView, v: JsValue, slot: usize) -> bool {
    &&& v == (JsValue { env: before.env, raw: before.handles.len() as usize })
    &&& after == (HostView {
        handles: before.handles.push(Handle { target: slot, scope: before.top().id }),
        ..before
    })
}

/// The pending exception, a settled promise, a property write, a live handle or a
/// counted, undeleted reference keeps the value in `slot` alive.
pub open spec fn rooted(h: HostView, slot: usize) -> bool {
    ||| h.exception == Some(slot)
    ||| exists|j: int| 0 <= j < h.props.len() && h.props[j].value == Some(slot)
    ||| exists|j: int| 0 <= j < h.promises.len() && settled_slot(h.promises[j]) == Some(slot)
    ||| exists|j: int|
        0 <= j < h.handles.len() && h.live(j as usize) && h.handles[j].target == slot
    ||| exists|j: int|
        0 <= j < h.refs.len() && !h.refs[j].deleted && h.refs[j].count > 0 && h.refs[j].target
            == slot
}

/// The host may collect the value in `slot`: it is not a singleton, not collected yet, and
/// nothing native keeps it alive.
pub open spec fn collectible(h: HostView, slot: usize) -> bool {
    &&& TRUE_SLOT < slot < h.values.len()
    &&& !h.values[slot as int].collected
    &&& !rooted(h, slot)
}

/// The finalizers after the value in `slot` is collected: those attached to it have fired.
pub open spec fn fire_all(fs: Seq<FinalizerSlot>, slot: usize) -> Seq<FinalizerSlot> {
    Seq::new(
        fs.len(),
        |i: int|
            if fs[i].owner == slot {
                FinalizerSlot { owner: fs[i].owner, fired: true }
            } else {
                fs[i]
            },
    )
}

/// A copy of a payload.
pub(crate) fn copy_payload(p: &Payload) -> (r: Payload)
    ensures
        r@ == p@,
{
    match p {
        Payload::Undefined => Payload::Undefined,
        Payload::Null => Payload::Null,
        Payload::Global => Payload::Global,
        Payload::Bool(b) => Payload::Bool(*b),
        Payload::Number(n) => Payload::Number(*n),
        Payload::Text(s) => Payload::Text(s.clone()),
        Payload::Symbol(d) => Payload::Symbol(
            match d {
                Some(s) => Some(s.clone()),
                None => None,
            },
        ),
        Payload::Object => Payload::Object,
        Payload::Array(n) => Payload::Array(*n),
        Payload::Function(c) => Payload::Function(*c),
        Payload::External(x) => Payload::External(*x),
        Payload::BigInt(n) => Payload::BigInt(*n),
        Payload::ArrayBuffer(b, d) => Payload::ArrayBuffer(b.clone(), *d),
        Payload::Buffer(b) => Payload::Buffer(b.clone()),
        Payload::TypedArray(t, b, o, l) => Payload::TypedArray(*t, *b, *o, *l),
        Payload::DataView(b, o, l) => Payload::DataView(*b, *o, *l),
        Payload::Date(ms) => Payload::Date(*ms),
        Payload::Error(k, m) => Payload::Error(*k, *m),
        Payload::Promise(d) => Payload::Promise(*d),
    }
}

/// Marks every finalizer attached to `slot` as fired, returning the ids of those that had
/// not fired before, in order.
fn fire_finalizers(fs: &mut Vec<FinalizerSlot>, slot: usize) -> (ids: Vec<usize>)
    ensures
        final(fs)@ == fire_all(old(fs)@, slot),
        forall|k: usize|
            #![trigger ids@.contains(k)]
            ids@.contains(k) <==> (k < old(fs)@.len() && old(fs)@[k as int].owner == slot
                && !old(fs)@[k as int].fired),
        ids@.no_duplicates(),
{
    let mut ids: Vec<usize> = Vec::new();
    let mut i: usize = 0;
    while i < fs.len()
        invariant
            i <= fs@.len(),
            fs@.len() == old(fs)@.len(),
            forall|j: int|
                0 <= j < fs@.len() ==> fs@[j] == (if j < i {
                    fire_all(old(fs)@, slot)[j]
                } else {
                    old(fs)@[j]
                }),
            forall|k: usize|
                #![trigger ids@.contains(k)]
                ids@.contains(k) <==> (k < i && old(fs)@[k as int].owner == slot
                    && !old(fs)@[k as int].fired),
            forall|a: int| 0 <= a < ids@.len() ==> ids@[a] < i,
            ids@.no_duplicates(),
        decreases fs@.len() - i,
    {
        let f = fs[i];
        if f.owner == slot {
            fs.set(i, FinalizerSlot { owner: f.owner, fired: true });
            if !f.fired {
                let ghost before = ids@;
                ids.push(i);
                proof {
                    assert forall|k: usize|
                        #![trigger ids@.contains(k)]
                        ids@.contains(k) <==> (before.contains(k) || k == i) by {
                        if k == i {
                            assert(ids@[before.len() as int] == i);
                        }
                        if before.contains(k) {
                            let a = choose|a: int| 0 <= a < before.len() && before[a] == k;
                            assert(ids@[a] == k);
                        }
                        if ids@.contains(k) {
                            let a = choose|a: int| 0 <= a < ids@.len() && ids@[a] == k;
                            if a < before.len() {
                                assert(before[a] == k);
                            }
                        }
                    }
                }
            }
        }
        i = i + 1;
    }
    assert(fs@ =~= fire_all(old(fs)@, slot));
    ids
}

/// The value in `owner` has a wrap in place.
pub open spec fn wrapped(h: HostView, owner: usize) -> bool {
    exists|i: int| 0 <= i < h.wraps.len() && h.wraps[i].owner == owner && h.wraps[i].active
}

/// The tokens of the hooks in `hs` not removed, last added first.
pub open spec fn pending_hooks(hs: Seq<HookSlot>) -> Seq<u64>
    decreases hs.len(),
{
    if hs.len() == 0 {
        Seq::empty()
    } else if hs.last().removed {
        pending_hooks(hs.drop_last())
    } else {
        seq![hs.last().token] + pending_hooks(hs.drop_last())
    }
}

/// `pending_hooks` seen from the front.
proof fn lemma_pending_hooks_cons(hs: Seq<HookSlot>)
    requires
        hs.len() > 0,
    ensures
        pending_hooks(hs) == if hs[0].removed {
            pending_hooks(hs.drop_first())
        } else {
            pending_hooks(hs.drop_first()) + seq![hs[0].token]
        },
    decreases hs.len(),
{
    if hs.len() == 1 {
        assert(hs.drop_last() =~= Seq::<HookSlot>::empty());
        assert(hs.drop_first() =~= Seq::<HookSlot>::empty());
        assert(pending_hooks(Seq::<HookSlot>::empty()) == Seq::<u64>::empty());
        if !hs[0].removed {
            assert(seq![hs[0].token] + Seq::<u64>::empty() =~= Seq::<u64>::empty() + seq![hs[0].token]);
        }
    } else {
        lemma_pending_hooks_cons(hs.drop_last());
        assert(hs.drop_last().drop_first() =~= hs.drop_first().drop_last());
        assert(hs.drop_first().last() == hs.last());
        assert(hs.drop_last()[0] == hs[0]);
        if hs.last().removed {
        } else {
            let a = seq![hs.last().token];
            let p = pending_hooks(hs.drop_first().drop_last());
            if hs[0].removed {
            } else {
                assert(a + (p + seq![hs[0].token]) =~= (a + p) + seq![hs[0].token]);
            }
        }
    }
}

/// Whether `names` holds `n`.
fn contains_name(names: &Vec<String>, n: &String) -> (r: bool)
    ensures
        r == exists|k: int| 0 <= k < names@.len() && names@[k]@ == n@,
{
    let mut j: usize = 0;
    while j < names.len()
        invariant
            j <= names@.len(),
            forall|k: int| 0 <= k < j ==> names@[k]@ != n@,
        decreases names@.len() - j,
    {
        if names[j].eq(n) {
            return true;
        }
        j = j + 1;
    }
    false
}

} // verus!
