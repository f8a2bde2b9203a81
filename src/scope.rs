//! Handle scopes: LIFO regions that bound the lifetime of the handles made in them.
use vstd::prelude::*;
use crate::host::{escape_allowed, frame_at, Frame, Handle, HostView, JsValue, NapiEnv, NapiHost};
use crate::status::{NapiResult, NapiStatus};

verus! {

/// A token for an open handle scope. Handles made while it is the innermost scope stop
/// being usable when it closes.
#[derive(Clone, Copy, Debug, PartialEq, Eq, Structural)]
pub struct NapiHandleScope {
    pub env: NapiEnv,
    pub id: u64,
}

/// A token for an open escapable handle scope, from which one handle may be promoted to
/// the enclosing scope.
#[derive(Clone, Copy, Debug, PartialEq, Eq, Structural)]
pub struct NapiEscapableHandleScope {
    pub env: NapiEnv,
    pub id: u64,
}

/// What opening a scope does to the host: the scope pushed on top, with a fresh id.
pub open spec fn opened(before: HostView, after: HostView, id: u64, escapable: bool) -> bool {
    &&& before.next_scope < u64::MAX
    &&& id == before.next_scope
    &&& after == (HostView {
        frames: before.frames.push(Frame { id, escapable, escaped: false }),
        next_scope: (before.next_scope + 1) as u64,
        ..before
    })
}

/// What closing scope `id` does: on success the innermost scope is popped; on a mismatch
/// nothing changes.
pub open spec fn closed(before: HostView, after: HostView, id: u64, r: NapiResult<()>) -> bool {
    if before.frames.len() > 1 && before.top().id == id {
        r == Ok::<(), NapiStatus>(()) && after == (HostView {
            frames: before.frames.drop_last(),
            ..before
        })
    } else {
        r == Err::<(), NapiStatus>(NapiStatus::HandleScopeMismatch) && after == before
    }
}

impl NapiHandleScope {
    /// The environment of this scope.
    pub fn env(&self) -> (r: NapiEnv)
        ensures
            r == self.env,
    {
        self.env
    }

    /// The host's id for this scope.
    pub fn raw(&self) -> (r: u64)
        ensures
            r == self.id,
    {
        self.id
    }

    /// Opens a new innermost scope. Fails with `GenericFailure` only when the host has
    /// spent every scope id.
    pub fn open(env: NapiEnv, host: &mut NapiHost) -> (r: NapiResult<NapiHandleScope>)
        requires
            old(host)@.wf(),
        ensures
            final(host)@.wf(),
            old(host)@.succeeds(final(host)@),
            r is Ok <==> old(host)@.next_scope < u64::MAX,
            r matches Ok(s) ==> s.env == env && opened(old(host)@, final(host)@, s.id, false),
            r is Err ==> r == Err::<NapiHandleScope, NapiStatus>(NapiStatus::GenericFailure)
                && final(host)@ == old(host)@,
    {
        match host.open_frame(false) {
            Ok(id) => Ok(NapiHandleScope { env, id }),
            Err(e) => Err(e),
        }
    }

    /// Closes this scope. It must be the innermost open scope; otherwise the stack is left
    /// as it was and `HandleScopeMismatch` is returned.
    pub fn close(&mut self, host: &mut NapiHost) -> (r: NapiResult<()>)
        requires
            old(host)@.wf(),
        ensures
            *final(self) == *old(self),
            final(host)@.wf(),
            old(host)@.succeeds(final(host)@),
            closed(old(host)@, final(host)@, old(self).id, r),
    {
        host.close_frame(self.id)
    }
}

impl NapiEscapableHandleScope {
    /// The environment of this scope.
    pub fn env(&self) -> (r: NapiEnv)
        ensures
            r == self.env,
    {
        self.env
    }

    /// The host's id for this scope.
    pub fn raw(&self) -> (r: u64)
        ensures
            r == self.id,
    {
        self.id
    }

    /// Opens a new innermost escapable scope. Fails with `GenericFailure` only when the
    /// host has spent every scope id.
    pub fn open(env: NapiEnv, host: &mut NapiHost) -> (r: NapiResult<NapiEscapableHandleScope>)
        requires
            old(host)@.wf(),
        ensures
            final(host)@.wf(),
            old(host)@.succeeds(final(host)@),
            r is Ok <==> old(host)@.next_scope < u64::MAX,
            r matches Ok(s) ==> s.env == env && opened(old(host)@, final(host)@, s.id, true),
            r is Err ==> r == Err::<NapiEscapableHandleScope, NapiStatus>(
                NapiStatus::GenericFailure,
            ) && final(host)@ == old(host)@,
    {
        match host.open_frame(true) {
            Ok(id) => Ok(NapiEscapableHandleScope { env, id }),
            Err(e) => Err(e),
        }
    }

    /// Closes this scope. It must be the innermost open scope; otherwise the stack is left
    /// as it was and `HandleScopeMismatch` is returned.
    pub fn close(&mut self, host: &mut NapiHost) -> (r: NapiResult<()>)
        requires
            old(host)@.wf(),
        ensures
            *final(self) == *old(self),
            final(host)@.wf(),
            old(host)@.succeeds(final(host)@),
            closed(old(host)@, final(host)@, old(self).id, r),
    {
        host.close_frame(self.id)
    }

    /// Promotes `escapee` so that a new handle to its value lives in the scope enclosing
    /// this one. Succeeds once per scope; a second call fails with `EscapeCalledTwice`.
    /// A closed scope or a dead handle gives `InvalidArg`.
    pub fn escape(&mut self, host: &mut NapiHost, escapee: JsValue) -> (r: NapiResult<JsValue>)
        requires
            old(host)@.wf(),
        ensures
            *final(self) == *old(self),
            final(host)@.wf(),
            old(host)@.succeeds(final(host)@),
            r is Ok <==> escape_allowed(old(host)@, old(self).id, escapee),
            !old(host)@.scope_open(old(self).id) ==> r == Err::<JsValue, NapiStatus>(
                NapiStatus::InvalidArg,
            ),
            old(host)@.scope_open(old(self).id) && old(host)@.frames[frame_at(
                old(host)@,
                old(self).id,
            )].escaped ==> r == Err::<JsValue, NapiStatus>(NapiStatus::EscapeCalledTwice),
            r is Err ==> final(host)@.frames == old(host)@.frames && final(host)@.handles
                == old(host)@.handles,
            r matches Ok(e) ==> {
                let i = frame_at(old(host)@, old(self).id);
                &&& e == (JsValue {
                    env: old(host)@.env,
                    raw: old(host)@.handles.len() as usize,
                })
                &&& final(host)@.valid(e)
                &&& e.env == escapee.env
                &&& final(host)@.target(e.raw) == old(host)@.target(escapee.raw)
                &&& final(host)@.handles[e.raw as int].scope == old(host)@.frames[i - 1].id
                &&& final(host)@.frames[i].escaped
                &&& final(host)@ == (HostView {
                    frames: old(host)@.frames.update(
                        i,
                        Frame { escaped: true, ..old(host)@.frames[i] },
                    ),
                    handles: old(host)@.handles.push(
                        Handle {
                            target: old(host)@.target(escapee.raw),
                            scope: old(host)@.frames[i - 1].id,
                        },
                    ),
                    ..old(host)@
                })
            },
    {
        let r = host.escape_handle(self.id, escapee);
        proof {
            if r is Ok {
                let i = frame_at(old(host)@, old(self).id);
                let h = final(host)@;
                assert(h.frames[i - 1].id == old(host)@.frames[i - 1].id);
                assert(h.scope_open(h.frames[i - 1].id));
            }
        }
        r
    }
}

} // verus!
