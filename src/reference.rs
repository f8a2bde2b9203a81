//! Persistent references: counted handles that outlive their scope, and finalizers that
//! fire once when the host collects a value.
use vstd::prelude::*;
use crate::host::{FinalizerSlot, HostView, JsValue, NapiEnv, NapiHost, RefSlot};
use crate::status::{NapiResult, NapiStatus};

verus! {

/// A persistent reference to a host value. One obtained together with a finalizer may
/// only be deleted once that finalizer has fired.
#[derive(Debug)]
pub struct NapiRef {
    env: NapiEnv,
    id: usize,
    finalizer: Option<usize>,
}

/// The reference `id` exists and has not been deleted.
pub open spec fn ref_open(h: HostView, id: usize) -> bool {
    id < h.refs.len() && !h.refs[id as int].deleted
}

/// `after` is `before` with the count of reference `id` set to `count`.
pub open spec fn recounted(before: HostView, after: HostView, id: usize, count: u32) -> bool {
    after == (HostView {
        refs: before.refs.update(id as int, RefSlot { count, ..before.refs[id as int] }),
        ..before
    })
}

impl NapiRef {
    /// The host's id for this reference.
    pub closed spec fn id(&self) -> usize {
        self.id
    }

    /// The finalizer this reference was obtained with, if any.
    pub closed spec fn spec_finalizer(&self) -> Option<usize> {
        self.finalizer
    }

    /// The environment of this reference.
    pub closed spec fn spec_env(&self) -> NapiEnv {
        self.env
    }

    /// A reference token for an existing host reference.
    pub(crate) fn from_parts(env: NapiEnv, id: usize, finalizer: Option<usize>) -> (r: NapiRef)
        ensures
            r.spec_env() == env,
            r.id() == id,
            r.spec_finalizer() == finalizer,
    {
        NapiRef { env, id, finalizer }
    }

    /// A reference with count `count` to the value behind `value`. `InvalidArg` for a dead
    /// handle, leaving the host unchanged.
    pub fn new(host: &mut NapiHost, value: JsValue, count: u32) -> (r: NapiResult<NapiRef>)
        requires
            old(host)@.wf(),
        ensures
            final(host)@.wf(),
            old(host)@.succeeds(final(host)@),
            r is Ok <==> old(host)@.valid(value),
            r is Err ==> r == Err::<NapiRef, NapiStatus>(NapiStatus::InvalidArg) && final(host)@
                == old(host)@,
            r matches Ok(rf) ==> {
                &&& rf.id() == old(host)@.refs.len()
                &&& rf.spec_finalizer() is None
                &&& rf.spec_env() == value.env
                &&& final(host)@ == (HostView {
                    refs: old(host)@.refs.push(
                        RefSlot { target: old(host)@.target(value.raw), count, deleted: false },
                    ),
                    ..old(host)@
                })
            },
    {
        let t = host.target_of(value)?;
        let id = host.add_ref(t, count);
        Ok(NapiRef { env: value.env, id, finalizer: None })
    }

    /// Attaches a finalizer to the value behind `value`, returning a weak reference (count
    /// 0) obtained with it and the finalizer's id. `InvalidArg` for a dead handle, leaving
    /// the host unchanged.
    pub fn finalizer(host: &mut NapiHost, value: JsValue) -> (r: NapiResult<(NapiRef, usize)>)
        requires
            old(host)@.wf(),
        ensures
            final(host)@.wf(),
            old(host)@.succeeds(final(host)@),
            r is Ok <==> old(host)@.valid(value),
            r is Err ==> r == Err::<(NapiRef, usize), NapiStatus>(NapiStatus::InvalidArg)
                && final(host)@ == old(host)@,
            r matches Ok((rf, f)) ==> {
                &&& rf.id() == old(host)@.refs.len()
                &&& f == old(host)@.finalizers.len()
                &&& rf.spec_finalizer() == Some(f)
                &&& rf.spec_env() == value.env
                &&& final(host)@ == (HostView {
                    refs: old(host)@.refs.push(
                        RefSlot { target: old(host)@.target(value.raw), count: 0, deleted: false },
                    ),
                    finalizers: old(host)@.finalizers.push(
                        FinalizerSlot { owner: old(host)@.target(value.raw), fired: false },
                    ),
                    ..old(host)@
                })
            },
    {
        let t = host.target_of(value)?;
        let f = host.add_finalizer(t);
        let id = host.add_ref(t, 0);
        Ok((NapiRef { env: value.env, id, finalizer: Some(f) }, f))
    }

    /// The environment of this reference.
    pub fn env(&self) -> (r: NapiEnv)
        ensures
            r == self.spec_env(),
    {
        self.env
    }

    /// The host's id for this reference.
    pub fn raw(&self) -> (r: usize)
        ensures
            r == self.id(),
    {
        self.id
    }

    /// Increments the count, returning the new count. `InvalidArg` for a deleted reference,
    /// `GenericFailure` when the count is at its maximum; the host is unchanged on failure.
    pub fn inc(&mut self, host: &mut NapiHost) -> (r: NapiResult<u32>)
        requires
            old(host)@.wf(),
        ensures
            *final(self) == *old(self),
            final(host)@.wf(),
            old(host)@.succeeds(final(host)@),
            !ref_open(old(host)@, old(self).id()) ==> r == Err::<u32, NapiStatus>(
                NapiStatus::InvalidArg,
            ) && final(host)@ == old(host)@,
            ref_open(old(host)@, old(self).id()) && old(host)@.refs[old(self).id() as int].count
                == u32::MAX ==> r == Err::<u32, NapiStatus>(NapiStatus::GenericFailure)
                && final(host)@ == old(host)@,
            ref_open(old(host)@, old(self).id()) && old(host)@.refs[old(self).id() as int].count
                < u32::MAX ==> {
                let c = (old(host)@.refs[old(self).id() as int].count + 1) as u32;
                &&& r == Ok::<u32, NapiStatus>(c)
                &&& recounted(old(host)@, final(host)@, old(self).id(), c)
            },
    {
        let slot = match host.get_ref(self.id) {
            Some(s) => s,
            None => return Err(NapiStatus::InvalidArg),
        };
        if slot.deleted {
            return Err(NapiStatus::InvalidArg);
        }
        if slot.count == u32::MAX {
            return Err(NapiStatus::GenericFailure);
        }
        let c = slot.count + 1;
        host.set_ref(self.id, c, false);
        Ok(c)
    }

    /// Decrements the count, returning the new count. `InvalidArg` for a deleted reference,
    /// `GenericFailure` when the count is already 0; the host is unchanged on failure.
    pub fn dec(&mut self, host: &mut NapiHost) -> (r: NapiResult<u32>)
        requires
            old(host)@.wf(),
        ensures
            *final(self) == *old(self),
            final(host)@.wf(),
            old(host)@.succeeds(final(host)@),
            !ref_open(old(host)@, old(self).id()) ==> r == Err::<u32, NapiStatus>(
                NapiStatus::InvalidArg,
            ) && final(host)@ == old(host)@,
            ref_open(old(host)@, old(self).id()) && old(host)@.refs[old(self).id() as int].count
                == 0 ==> r == Err::<u32, NapiStatus>(NapiStatus::GenericFailure) && final(host)@
                == old(host)@,
            ref_open(old(host)@, old(self).id()) && old(host)@.refs[old(self).id() as int].count
                > 0 ==> {
                let c = (old(host)@.refs[old(self).id() as int].count - 1) as u32;
                &&& r == Ok::<u32, NapiStatus>(c)
                &&& recounted(old(host)@, final(host)@, old(self).id(), c)
            },
    {
        let slot = match host.get_ref(self.id) {
            Some(s) => s,
            None => return Err(NapiStatus::InvalidArg),
        };
        if slot.deleted {
            return Err(NapiStatus::InvalidArg);
        }
        if slot.count == 0 {
            return Err(NapiStatus::GenericFailure);
        }
        let c = slot.count - 1;
        host.set_ref(self.id, c, false);
        Ok(c)
    }

    /// A new handle, in the innermost scope, to the referenced value; `None` once the host
    /// has collected it. `InvalidArg` for a deleted reference.
    pub fn deref(&self, host: &mut NapiHost) -> (r: NapiResult<Option<JsValue>>)
        requires
            old(host)@.wf(),
        ensures
            final(host)@.wf(),
            old(host)@.succeeds(final(host)@),
            !ref_open(old(host)@, self.id()) ==> r == Err::<Option<JsValue>, NapiStatus>(
                NapiStatus::InvalidArg,
            ) && final(host)@ == old(host)@,
            ref_open(old(host)@, self.id()) && old(host)@.values[old(host)@.refs[self.id() as int].target as int].collected
                ==> r == Ok::<Option<JsValue>, NapiStatus>(None) && final(host)@ == old(host)@,
            ref_open(old(host)@, self.id()) && !old(host)@.values[old(host)@.refs[self.id() as int].target as int].collected
                ==> (r matches Ok(Some(v)) && crate::host::handle_made(
                old(host)@,
                final(host)@,
                v,
                old(host)@.refs[self.id() as int].target,
            ) && final(host)@.valid(v)),
    {
        let slot = match host.get_ref(self.id) {
            Some(s) => s,
            None => return Err(NapiStatus::InvalidArg),
        };
        if slot.deleted {
            return Err(NapiStatus::InvalidArg);
        }
        if host.entity(slot.target).collected {
            return Ok(None);
        }
        Ok(Some(host.new_handle(slot.target)))
    }

    /// Deletes the reference. One obtained with a finalizer may only be deleted after that
    /// finalizer fired: earlier the call fails with `GenericFailure` and the reference stays.
    /// `InvalidArg` for a reference already deleted.
    pub fn delete(&self, host: &mut NapiHost) -> (r: NapiResult<()>)
        requires
            old(host)@.wf(),
        ensures
            final(host)@.wf(),
            old(host)@.succeeds(final(host)@),
            !ref_open(old(host)@, self.id()) ==> r == Err::<(), NapiStatus>(NapiStatus::InvalidArg)
                && final(host)@ == old(host)@,
            ref_open(old(host)@, self.id()) && finalizer_pending(old(host)@, self.spec_finalizer())
                ==> r == Err::<(), NapiStatus>(NapiStatus::GenericFailure) && final(host)@
                == old(host)@,
            ref_open(old(host)@, self.id()) && !finalizer_pending(old(host)@, self.spec_finalizer())
                ==> r == Ok::<(), NapiStatus>(()) && final(host)@ == (HostView {
                refs: old(host)@.refs.update(
                    self.id() as int,
                    RefSlot { deleted: true, ..old(host)@.refs[self.id() as int] },
                ),
                ..old(host)@
            }),
    {
        let slot = match host.get_ref(self.id) {
            Some(s) => s,
            None => return Err(NapiStatus::InvalidArg),
        };
        if slot.deleted {
            return Err(NapiStatus::InvalidArg);
        }
        if let Some(f) = self.finalizer {
            if !host.finalizer_fired(f) {
                return Err(NapiStatus::GenericFailure);
            }
        }
        host.set_ref(self.id, slot.count, true);
        Ok(())
    }
}

/// The finalizer `f` (if any) exists and has not fired.
pub open spec fn finalizer_pending(h: HostView, f: Option<usize>) -> bool {
    match f {
        Some(i) => !(i < h.finalizers.len() && h.finalizers[i as int].fired),
        None => false,
    }
}

} // verus!
