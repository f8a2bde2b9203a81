//! The environment token and its shorthands for making values and scopes.
use vstd::prelude::*;
use crate::host::{created, handle_made, Data, HostView, NapiEnv, NapiHost, GLOBAL_SLOT, NULL_SLOT, UNDEFINED_SLOT};
use crate::primitive::bool_slot;
use crate::scope::{opened, NapiEscapableHandleScope, NapiHandleScope};
use crate::status::{NapiResult, NapiStatus};
use crate::value::{JsBigInt, JsBoolean, JsGlobal, JsNull, JsNumber, JsString, JsSymbol, JsUndefined};

verus! {

impl NapiEnv {
    /// The token for a raw environment pointer.
    pub fn from_raw(raw: usize) -> (r: NapiEnv)
        ensures
            r.raw == raw,
    {
        NapiEnv { raw }
    }

    /// The raw environment pointer.
    pub fn raw(&self) -> (r: usize)
        ensures
            r == self.raw,
    {
        self.raw
    }

    /// The embedding-interface version the host implements.
    pub fn napi_version(&self, host: &NapiHost) -> (r: NapiResult<u32>)
        ensures
            r == Ok::<u32, NapiStatus>(crate::NAPI_VERSION),
    {
        Ok(crate::napi_version_guard())
    }

    /// The global object.
    pub fn global(&self, host: &mut NapiHost) -> (r: NapiResult<JsGlobal>)
        requires
            old(host)@.wf(),
        ensures
            final(host)@.wf(),
            old(host)@.succeeds(final(host)@),
            r matches Ok(u) && handle_made(old(host)@, final(host)@, u.0, GLOBAL_SLOT),
    {
        JsGlobal::new(*self, host)
    }

    /// The `null` value.
    pub fn null(&self, host: &mut NapiHost) -> (r: NapiResult<JsNull>)
        requires
            old(host)@.wf(),
        ensures
            final(host)@.wf(),
            old(host)@.succeeds(final(host)@),
            r matches Ok(u) && handle_made(old(host)@, final(host)@, u.0, NULL_SLOT),
    {
        JsNull::new(*self, host)
    }

    /// The `undefined` value.
    pub fn undefined(&self, host: &mut NapiHost) -> (r: NapiResult<JsUndefined>)
        requires
            old(host)@.wf(),
        ensures
            final(host)@.wf(),
            old(host)@.succeeds(final(host)@),
            r matches Ok(u) && handle_made(old(host)@, final(host)@, u.0, UNDEFINED_SLOT),
    {
        JsUndefined::new(*self, host)
    }

    /// A number holding `value`.
    pub fn int32(&self, host: &mut NapiHost, value: i32) -> (r: NapiResult<JsNumber>)
        requires
            old(host)@.wf(),
        ensures
            final(host)@.wf(),
            old(host)@.succeeds(final(host)@),
            r matches Ok(n) && created(old(host)@, final(host)@, n.0, Data::Number(value as i64)),
    {
        JsNumber::int32(*self, host, value)
    }

    /// A number holding `value`.
    pub fn uint32(&self, host: &mut NapiHost, value: u32) -> (r: NapiResult<JsNumber>)
        requires
            old(host)@.wf(),
        ensures
            final(host)@.wf(),
            old(host)@.succeeds(final(host)@),
            r matches Ok(n) && created(old(host)@, final(host)@, n.0, Data::Number(value as i64)),
    {
        JsNumber::uint32(*self, host, value)
    }

    /// A number holding `value`.
    pub fn int64(&self, host: &mut NapiHost, value: i64) -> (r: NapiResult<JsNumber>)
        requires
            old(host)@.wf(),
        ensures
            final(host)@.wf(),
            old(host)@.succeeds(final(host)@),
            r matches Ok(n) && created(old(host)@, final(host)@, n.0, Data::Number(value)),
    {
        JsNumber::int64(*self, host, value)
    }

    /// A string holding a copy of `s`.
    pub fn string(&self, host: &mut NapiHost, s: &str) -> (r: NapiResult<JsString>)
        requires
            old(host)@.wf(),
        ensures
            final(host)@.wf(),
            old(host)@.succeeds(final(host)@),
            r matches Ok(v) && created(old(host)@, final(host)@, v.0, Data::Text(s@)),
    {
        JsString::new(*self, host, s)
    }

    /// The boolean singleton for `boolean`.
    pub fn boolean(&self, host: &mut NapiHost, boolean: bool) -> (r: NapiResult<JsBoolean>)
        requires
            old(host)@.wf(),
        ensures
            final(host)@.wf(),
            old(host)@.succeeds(final(host)@),
            r matches Ok(b) && handle_made(old(host)@, final(host)@, b.0, bool_slot(boolean)),
    {
        JsBoolean::new(*self, host, boolean)
    }

    /// A big integer holding `value`.
    pub fn bigint_i64(&self, host: &mut NapiHost, value: i64) -> (r: NapiResult<JsBigInt>)
        requires
            old(host)@.wf(),
        ensures
            final(host)@.wf(),
            old(host)@.succeeds(final(host)@),
            r matches Ok(n) && created(old(host)@, final(host)@, n.0, Data::BigInt(value as i128)),
    {
        JsBigInt::new_i64(*self, host, value)
    }

    /// A big integer holding `value`.
    pub fn bigint_u64(&self, host: &mut NapiHost, value: u64) -> (r: NapiResult<JsBigInt>)
        requires
            old(host)@.wf(),
        ensures
            final(host)@.wf(),
            old(host)@.succeeds(final(host)@),
            r matches Ok(n) && created(old(host)@, final(host)@, n.0, Data::BigInt(value as i128)),
    {
        JsBigInt::new_u64(*self, host, value)
    }

    /// A new symbol without a description.
    pub fn symbol(&self, host: &mut NapiHost) -> (r: NapiResult<JsSymbol>)
        requires
            old(host)@.wf(),
        ensures
            final(host)@.wf(),
            old(host)@.succeeds(final(host)@),
            r matches Ok(s) && created(old(host)@, final(host)@, s.0, Data::Symbol(None)),
    {
        JsSymbol::new(*self, host)
    }

    /// A new symbol described by the string `desc`.
    pub fn symbol_description(&self, host: &mut NapiHost, desc: JsString) -> (r: NapiResult<
        JsSymbol,
    >)
        requires
            old(host)@.wf(),
        ensures
            final(host)@.wf(),
            old(host)@.succeeds(final(host)@),
            match crate::primitive::data_of(old(host)@, desc.0) {
                None => r == Err::<JsSymbol, NapiStatus>(NapiStatus::InvalidArg) && final(host)@
                    == old(host)@,
                Some(Data::Text(t)) => r matches Ok(s) && created(
                    old(host)@,
                    final(host)@,
                    s.0,
                    Data::Symbol(Some(t)),
                ),
                Some(_) => r == Err::<JsSymbol, NapiStatus>(NapiStatus::StringExpected)
                    && final(host)@ == old(host)@,
            },
    {
        JsSymbol::description(*self, host, desc)
    }

    /// Opens a handle scope.
    pub fn handle_scope(&self, host: &mut NapiHost) -> (r: NapiResult<NapiHandleScope>)
        requires
            old(host)@.wf(),
        ensures
            final(host)@.wf(),
            old(host)@.succeeds(final(host)@),
            r is Ok <==> old(host)@.next_scope < u64::MAX,
            r matches Ok(s) ==> s.env == *self && opened(old(host)@, final(host)@, s.id, false),
            r is Err ==> final(host)@ == old(host)@,
    {
        NapiHandleScope::open(*self, host)
    }

    /// Opens an escapable handle scope.
    pub fn escapable_handle_scope(&self, host: &mut NapiHost) -> (r: NapiResult<
        NapiEscapableHandleScope,
    >)
        requires
            old(host)@.wf(),
        ensures
            final(host)@.wf(),
            old(host)@.succeeds(final(host)@),
            r is Ok <==> old(host)@.next_scope < u64::MAX,
            r matches Ok(s) ==> s.env == *self && opened(old(host)@, final(host)@, s.id, true),
            r is Err ==> final(host)@ == old(host)@,
    {
        NapiEscapableHandleScope::open(*self, host)
    }

    /// Records a change of `change` bytes in the memory kept alive by host values,
    /// returning the new total. `InvalidArg` when the total would leave the `i64` range.
    pub fn adjust_external_memory(&self, host: &mut NapiHost, change: i64) -> (r: NapiResult<i64>)
        requires
            old(host)@.wf(),
        ensures
            final(host)@.wf(),
            old(host)@.succeeds(final(host)@),
            i64::MIN <= old(host)@.external_memory + change <= i64::MAX ==> {
                &&& r == Ok::<i64, NapiStatus>((old(host)@.external_memory + change) as i64)
                &&& final(host)@ == (HostView {
                    external_memory: (old(host)@.external_memory + change) as i64,
                    ..old(host)@
                })
            },
            !(i64::MIN <= old(host)@.external_memory + change <= i64::MAX) ==> r == Err::<
                i64,
                NapiStatus,
            >(NapiStatus::InvalidArg) && final(host)@ == old(host)@,
    {
        match host.external_memory().checked_add(change) {
            Some(total) => {
                host.set_external_memory(total);
                Ok(total)
            },
            None => Err(NapiStatus::InvalidArg),
        }
    }
    /// Runs `task` inside a new handle scope, closing the scope afterwards: the handles the
    /// task makes do not outlive it. Fails with `GenericFailure`, without running the task,
    /// only when the host has spent every scope id.
    pub fn scope<T, F: FnOnce(NapiHandleScope) -> T>(&self, host: &mut NapiHost, task: F) -> (r:
        NapiResult<T>)
        requires
            old(host)@.wf(),
            forall|s: NapiHandleScope| task.requires((s,)),
        ensures
            final(host)@.wf(),
            old(host)@.succeeds(final(host)@),
            r is Ok <==> old(host)@.next_scope < u64::MAX,
            r matches Ok(v) ==> task.ensures(
                (NapiHandleScope { env: *self, id: old(host)@.next_scope },),
                v,
            ),
            r is Ok ==> final(host)@ == (HostView {
                next_scope: (old(host)@.next_scope + 1) as u64,
                ..old(host)@
            }),
            r is Err ==> final(host)@ == old(host)@,
    {
        let mut s = NapiHandleScope::open(*self, host)?;
        let ghost h1 = host@;
        let v = task(s);
        let _ = s.close(host);
        assert(h1.frames.drop_last() =~= old(host)@.frames);
        assert(host@ =~= (HostView { next_scope: (old(host)@.next_scope + 1) as u64, ..old(host)@ }));
        proof {
            crate::descriptor::lemma_succeeds_trans(old(host)@, h1, host@);
        }
        Ok(v)
    }

    /// Runs `task` inside a new escapable handle scope, closing the scope afterwards. Fails
    /// with `GenericFailure`, without running the task, only when the host has spent every
    /// scope id.
    pub fn escapable_scope<T, F: FnOnce(NapiEscapableHandleScope) -> T>(&self, host: &mut NapiHost, task: F) -> (r:
        NapiResult<T>)
        requires
            old(host)@.wf(),
            forall|s: NapiEscapableHandleScope| task.requires((s,)),
        ensures
            final(host)@.wf(),
            old(host)@.succeeds(final(host)@),
            r is Ok <==> old(host)@.next_scope < u64::MAX,
            r matches Ok(v) ==> task.ensures(
                (NapiEscapableHandleScope { env: *self, id: old(host)@.next_scope },),
                v,
            ),
            r is Ok ==> final(host)@ == (HostView {
                next_scope: (old(host)@.next_scope + 1) as u64,
                ..old(host)@
            }),
            r is Err ==> final(host)@ == old(host)@,
    {
        let mut s = NapiEscapableHandleScope::open(*self, host)?;
        let ghost h1 = host@;
        let v = task(s);
        let _ = s.close(host);
        assert(h1.frames.drop_last() =~= old(host)@.frames);
        assert(host@ =~= (HostView { next_scope: (old(host)@.next_scope + 1) as u64, ..old(host)@ }));
        proof {
            crate::descriptor::lemma_succeeds_trans(old(host)@, h1, host@);
        }
        Ok(v)
    }
}

} // verus!
