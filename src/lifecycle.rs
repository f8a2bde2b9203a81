//! Native data tied to host lifetimes: data wrapped in an object, data attached to the
//! environment, and hooks that run when the environment exits.
use vstd::prelude::*;
use crate::host::{wrapped, FinalizerSlot, HookSlot, HostView, InstanceSlot, NapiEnv, NapiHost, RefSlot, WrapSlot};
use crate::object::{object_result, object_target};
use crate::reference::NapiRef;
use crate::status::{NapiResult, NapiStatus};
use crate::value::JsObject;

verus! {

/// The position of the wrap in place on the value in `owner`.
pub open spec fn active_wrap(h: HostView, owner: usize) -> int {
    choose|i: int| 0 <= i < h.wraps.len() && h.wraps[i].owner == owner && h.wraps[i].active
}

/// In a well-formed state a value holds at most one wrap, so `active_wrap` finds it.
proof fn lemma_active_wrap(h: HostView, owner: usize, i: int)
    requires
        h.wf(),
        0 <= i < h.wraps.len(),
        h.wraps[i].owner == owner,
        h.wraps[i].active,
    ensures
        active_wrap(h, owner) == i,
{
    let j = active_wrap(h, owner);
    assert(0 <= j < h.wraps.len() && h.wraps[j].owner == owner && h.wraps[j].active);
}

/// The state after taking away the wrap in place on the value in `owner`: that wrap is no
/// longer in place and its finalizer is settled, so it never fires; nothing else changes.
pub open spec fn unwrapped(h: HostView, owner: usize) -> HostView {
    let w = active_wrap(h, owner);
    HostView {
        wraps: h.wraps.update(w, WrapSlot { active: false, ..h.wraps[w] }),
        finalizers: h.finalizers.update(
            h.wraps[w].finalizer as int,
            FinalizerSlot { fired: true, ..h.finalizers[h.wraps[w].finalizer as int] },
        ),
        ..h
    }
}

impl JsObject {
    /// Wraps the native token `data` in the object, with a finalizer that fires when the
    /// object is collected; returns a weak reference obtained with that finalizer. An
    /// object holds one wrap at a time: a second gives `InvalidArg`.
    pub fn wrap(&mut self, host: &mut NapiHost, data: u64) -> (r: NapiResult<NapiRef>)
        requires
            old(host)@.wf(),
        ensures
            *final(self) == *old(self),
            final(host)@.wf(),
            old(host)@.succeeds(final(host)@),
            match object_result(old(host)@, old(self).0) {
                Err(e) => r == Err::<NapiRef, NapiStatus>(e) && final(host)@ == old(host)@,
                Ok(t) => if wrapped(old(host)@, t) {
                    r == Err::<NapiRef, NapiStatus>(NapiStatus::InvalidArg) && final(host)@ == old(host)@
                } else {
                    r matches Ok(rf) && {
                        let f = old(host)@.finalizers.len() as usize;
                        &&& rf.spec_finalizer() == Some(f)
                        &&& rf.id() == old(host)@.refs.len()
                        &&& final(host)@ == (HostView {
                            finalizers: old(host)@.finalizers.push(FinalizerSlot { owner: t, fired: false }),
                            wraps: old(host)@.wraps.push(WrapSlot { owner: t, data, finalizer: f, active: true }),
                            refs: old(host)@.refs.push(RefSlot { target: t, count: 0, deleted: false }),
                            ..old(host)@
                        })
                    }
                },
            },
    {
        let t = object_target(host, self.0)?;
        if host.find_wrap(t).is_some() {
            return Err(NapiStatus::InvalidArg);
        }
        let f = host.add_wrap(t, data);
        let id = host.add_ref(t, 0);
        Ok(NapiRef::from_parts(self.0.env, id, Some(f)))
    }

    /// The native token wrapped in the object; `None` when no wrap is in place.
    pub fn unwrap(&self, host: &NapiHost) -> (r: NapiResult<Option<u64>>)
        requires
            host@.wf(),
        ensures
            match object_result(host@, self.0) {
                Err(e) => r == Err::<Option<u64>, NapiStatus>(e),
                Ok(t) => if wrapped(host@, t) {
                    r == Ok::<Option<u64>, NapiStatus>(Some(host@.wraps[active_wrap(host@, t)].data))
                } else {
                    r == Ok::<Option<u64>, NapiStatus>(None)
                },
            },
    {
        let t = object_target(host, self.0)?;
        match host.find_wrap(t) {
            Some(i) => {
                proof {
                    lemma_active_wrap(host@, t, i as int);
                }
                Ok(Some(host.wrap_at(i).data))
            },
            None => Ok(None),
        }
    }

    /// Takes the wrap away and hands back its native token; its finalizer will not fire.
    /// `InvalidArg` when no wrap is in place.
    pub fn remove_wrap(&mut self, host: &mut NapiHost) -> (r: NapiResult<u64>)
        requires
            old(host)@.wf(),
        ensures
            *final(self) == *old(self),
            final(host)@.wf(),
            old(host)@.succeeds(final(host)@),
            match object_result(old(host)@, old(self).0) {
                Err(e) => r == Err::<u64, NapiStatus>(e) && final(host)@ == old(host)@,
                Ok(t) => if wrapped(old(host)@, t) {
                    &&& r == Ok::<u64, NapiStatus>(old(host)@.wraps[active_wrap(old(host)@, t)].data)
                    &&& final(host)@ == unwrapped(old(host)@, t)
                    &&& !wrapped(final(host)@, t)
                } else {
                    r == Err::<u64, NapiStatus>(NapiStatus::InvalidArg) && final(host)@ == old(host)@
                },
            },
    {
        let t = object_target(host, self.0)?;
        match host.find_wrap(t) {
            Some(i) => {
                proof {
                    lemma_active_wrap(host@, t, i as int);
                }
                let w = host.wrap_at(i);
                host.drop_wrap(i);
                assert(!wrapped(host@, t)) by {
                    if wrapped(host@, t) {
                        let k = choose|k: int| 0 <= k < host@.wraps.len() && host@.wraps[k].owner == t && host@.wraps[k].active;
                        assert(k != i);
                        assert(old(host)@.wraps[k] == host@.wraps[k]);
                        assert(false);
                    }
                }
                Ok(w.data)
            },
            None => Err(NapiStatus::InvalidArg),
        }
    }
}

/// A registered cleanup hook.
#[derive(Debug)]
pub struct CleanupHookHandler {
    pub env: NapiEnv,
    pub id: usize,
}

/// A registered asynchronous cleanup hook.
#[derive(Debug)]
pub struct AsyncCleanupHookHandler {
    pub env: NapiEnv,
    pub id: usize,
}

/// What removing hook `id` does: `InvalidArg` for an unknown or removed hook; otherwise
/// the hook is marked removed.
pub open spec fn hook_removed(before: HostView, after: HostView, id: usize, r: NapiResult<()>) -> bool {
    if id >= before.hooks.len() || before.hooks[id as int].removed {
        r == Err::<(), NapiStatus>(NapiStatus::InvalidArg) && after == before
    } else {
        r == Ok::<(), NapiStatus>(()) && after == (HostView {
            hooks: before.hooks.update(id as int, HookSlot { removed: true, ..before.hooks[id as int] }),
            ..before
        })
    }
}

fn remove_hook(host: &mut NapiHost, id: usize) -> (r: NapiResult<()>)
    requires
        old(host)@.wf(),
    ensures
        final(host)@.wf(),
        old(host)@.succeeds(final(host)@),
        hook_removed(old(host)@, final(host)@, id, r),
{
    match host.hook(id) {
        Some(h) => if h.removed {
            Err(NapiStatus::InvalidArg)
        } else {
            host.remove_hook(id);
            Ok(())
        },
        None => Err(NapiStatus::InvalidArg),
    }
}

impl CleanupHookHandler {
    /// Removes the hook, so that it does not run when the environment exits.
    pub fn remove(self, host: &mut NapiHost) -> (r: NapiResult<()>)
        requires
            old(host)@.wf(),
        ensures
            final(host)@.wf(),
            old(host)@.succeeds(final(host)@),
            hook_removed(old(host)@, final(host)@, self.id, r),
    {
        remove_hook(host, self.id)
    }
}

impl AsyncCleanupHookHandler {
    /// Removes the hook, so that it does not run when the environment exits.
    pub fn remove(self, host: &mut NapiHost) -> (r: NapiResult<()>)
        requires
            old(host)@.wf(),
        ensures
            final(host)@.wf(),
            old(host)@.succeeds(final(host)@),
            hook_removed(old(host)@, final(host)@, self.id, r),
    {
        remove_hook(host, self.id)
    }
}

impl NapiEnv {
    /// Registers a hook that runs with `token` when the environment exits; hooks run most
    /// recently added first.
    pub fn add_cleanup_hook(&self, host: &mut NapiHost, token: u64) -> (r: NapiResult<CleanupHookHandler>)
        requires
            old(host)@.wf(),
        ensures
            final(host)@.wf(),
            old(host)@.succeeds(final(host)@),
            r matches Ok(h) && h.id == old(host)@.hooks.len() && h.env == *self && final(host)@ == (HostView {
                hooks: old(host)@.hooks.push(HookSlot { token, removed: false }),
                ..old(host)@
            }),
    {
        let id = host.add_hook(token);
        Ok(CleanupHookHandler { env: *self, id })
    }

    /// Registers an asynchronous hook that runs with `token` when the environment exits.
    pub fn add_async_cleanup_hook(&self, host: &mut NapiHost, token: u64) -> (r: NapiResult<
        AsyncCleanupHookHandler,
    >)
        requires
            old(host)@.wf(),
        ensures
            final(host)@.wf(),
            old(host)@.succeeds(final(host)@),
            r matches Ok(h) && h.id == old(host)@.hooks.len() && h.env == *self && final(host)@ == (HostView {
                hooks: old(host)@.hooks.push(HookSlot { token, removed: false }),
                ..old(host)@
            }),
    {
        let id = host.add_hook(token);
        Ok(AsyncCleanupHookHandler { env: *self, id })
    }

    /// Attaches the native token `data` to the environment, with a finalizer that fires
    /// with it when the environment exits. Data attached before is replaced, and its
    /// finalizer is dropped without firing.
    pub fn set_instance_data(&self, host: &mut NapiHost, data: u64) -> (r: NapiResult<()>)
        requires
            old(host)@.wf(),
        ensures
            final(host)@.wf(),
            old(host)@.succeeds(final(host)@),
            r == Ok::<(), NapiStatus>(()),
            final(host)@ == (HostView {
                instance: Some(InstanceSlot { data, finalized: false }),
                ..old(host)@
            }),
    {
        host.set_instance(Some(InstanceSlot { data, finalized: false }));
        Ok(())
    }

    /// The native token attached to the environment; `None` when there is none.
    pub fn get_instance_data(&self, host: &NapiHost) -> (r: NapiResult<Option<u64>>)
        ensures
            r == Ok::<Option<u64>, NapiStatus>(
                match host@.instance {
                    Some(i) => Some(i.data),
                    None => None,
                },
            ),
    {
        match host.instance() {
            Some(i) => Ok(Some(i.data)),
            None => Ok(None),
        }
    }
}

} // verus!
