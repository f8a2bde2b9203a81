//! Async contexts, and the callback scopes opened from them to call into the host after
//! an asynchronous operation.
use vstd::prelude::*;
use crate::host::{created, Data, HostView, JsValue, NapiEnv, NapiHost};
use crate::scope::opened;
use crate::status::{NapiResult, NapiStatus};
use crate::value::JsString;

verus! {

/// An async context: the resource an asynchronous operation runs on behalf of.
#[derive(Debug)]
pub struct NapiAsyncContext {
    env: NapiEnv,
    resource: JsValue,
    destroyed: bool,
}

/// A token for an open callback scope.
#[derive(Clone, Copy, Debug, PartialEq, Eq, Structural)]
pub struct NapiCallbackScope {
    pub env: NapiEnv,
    pub id: u64,
}

impl NapiAsyncContext {
    /// The environment of the context.
    pub closed spec fn spec_env(&self) -> NapiEnv {
        self.env
    }

    /// The handle of the context's resource name.
    pub closed spec fn spec_raw(&self) -> JsValue {
        self.resource
    }

    /// The context has been destroyed.
    pub closed spec fn destroyed(&self) -> bool {
        self.destroyed
    }

    /// A context for an asynchronous operation named `name`.
    pub fn new(env: NapiEnv, host: &mut NapiHost, name: &str) -> (r: NapiResult<NapiAsyncContext>)
        requires
            old(host)@.wf(),
        ensures
            final(host)@.wf(),
            old(host)@.succeeds(final(host)@),
            r matches Ok(c) && {
                &&& created(old(host)@, final(host)@, c.spec_raw(), Data::Text(name@))
                &&& c.spec_env() == env
                &&& !c.destroyed()
            },
    {
        let n = JsString::new(env, host, name)?;
        Ok(NapiAsyncContext { env, resource: n.0, destroyed: false })
    }

    /// The environment of the context.
    pub fn env(&self) -> (r: NapiEnv)
        ensures
            r == self.spec_env(),
    {
        self.env
    }

    /// The handle of the context's resource name.
    pub fn raw(&self) -> (r: JsValue)
        ensures
            r == self.spec_raw(),
    {
        self.resource
    }

    /// Destroys the context. `InvalidArg` when it was destroyed already.
    pub fn destroy(&mut self) -> (r: NapiResult<()>)
        ensures
            final(self).spec_env() == old(self).spec_env(),
            final(self).spec_raw() == old(self).spec_raw(),
            final(self).destroyed(),
            old(self).destroyed() ==> r == Err::<(), NapiStatus>(NapiStatus::InvalidArg),
            !old(self).destroyed() ==> r == Ok::<(), NapiStatus>(()),
    {
        if self.destroyed {
            return Err(NapiStatus::InvalidArg);
        }
        self.destroyed = true;
        Ok(())
    }

    /// Opens a callback scope for the context. `InvalidArg` for a destroyed context,
    /// `GenericFailure` once every scope id is spent.
    pub fn scope(&self, host: &mut NapiHost) -> (r: NapiResult<NapiCallbackScope>)
        requires
            old(host)@.wf(),
        ensures
            final(host)@.wf(),
            old(host)@.succeeds(final(host)@),
            self.destroyed() ==> r == Err::<NapiCallbackScope, NapiStatus>(NapiStatus::InvalidArg)
                && final(host)@ == old(host)@,
            !self.destroyed() ==> (r is Ok <==> old(host)@.next_scope < u64::MAX),
            r matches Ok(s) ==> s.env == self.spec_env() && opened(old(host)@, final(host)@, s.id, false),
            r is Err ==> final(host)@ == old(host)@,
    {
        if self.destroyed {
            return Err(NapiStatus::InvalidArg);
        }
        let id = host.open_frame(false)?;
        Ok(NapiCallbackScope { env: self.env, id })
    }
}

/// What closing callback scope `id` does: on success the innermost scope is popped; when
/// another scope is innermost nothing changes and `CallbackScopeMismatch` is reported.
pub open spec fn callback_closed(before: HostView, after: HostView, id: u64, r: NapiResult<()>) -> bool {
    if before.frames.len() > 1 && before.top().id == id {
        r == Ok::<(), NapiStatus>(()) && after == (HostView {
            frames: before.frames.drop_last(),
            ..before
        })
    } else {
        r == Err::<(), NapiStatus>(NapiStatus::CallbackScopeMismatch) && after == before
    }
}

impl NapiCallbackScope {
    /// The environment of the scope.
    pub fn env(&self) -> (r: NapiEnv)
        ensures
            r == self.env,
    {
        self.env
    }

    /// The host's id for the scope.
    pub fn raw(&self) -> (r: u64)
        ensures
            r == self.id,
    {
        self.id
    }

    /// Closes the scope, which must be the innermost one.
    pub fn close(&mut self, host: &mut NapiHost) -> (r: NapiResult<()>)
        requires
            old(host)@.wf(),
        ensures
            *final(self) == *old(self),
            final(host)@.wf(),
            old(host)@.succeeds(final(host)@),
            callback_closed(old(host)@, final(host)@, old(self).id, r),
    {
        match host.close_frame(self.id) {
            Ok(()) => Ok(()),
            Err(_) => Err(NapiStatus::CallbackScopeMismatch),
        }
    }
}

impl NapiEnv {
    /// A context for an asynchronous operation named `name`.
    pub fn context(&self, host: &mut NapiHost, name: &str) -> (r: NapiResult<NapiAsyncContext>)
        requires
            old(host)@.wf(),
        ensures
            final(host)@.wf(),
            old(host)@.succeeds(final(host)@),
            r matches Ok(c) && {
                &&& created(old(host)@, final(host)@, c.spec_raw(), Data::Text(name@))
                &&& c.spec_env() == *self
                &&& !c.destroyed()
            },
    {
        NapiAsyncContext::new(*self, host, name)
    }
}

} // verus!
