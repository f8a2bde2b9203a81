//! The callback trampoline: a native closure registered as a host function. The closure is
//! boxed once, borrowed (never consumed) by every invocation, and dropped only when the
//! host reports that the function's finalizer fired.
use vstd::prelude::*;
use crate::exception::{throw_kind, thrown};
use crate::host::{
    created, handle_made, made_with_finalizer, plain, Data, ErrorKind, HostView, JsValue, NapiEnv,
    NapiHost, Payload, UNDEFINED_SLOT,
};
use crate::status::{status_message, NapiResult, NapiStatus};
use crate::value::{cast_result, JsFunction, JsObject, ValueKind};

verus! {

/// The positional arguments of a call.
#[derive(Debug)]
pub struct JsArgs(pub Vec<JsValue>);

/// What the host hands a native callback: the function called, the receiver, the
/// arguments, and the constructor when the call is a `new` expression.
#[derive(Debug)]
pub struct CallbackInfo {
    pub env: NapiEnv,
    pub callee: JsValue,
    pub this: JsValue,
    pub args: Vec<JsValue>,
    pub new_target: Option<JsValue>,
}

impl CallbackInfo {
    /// The environment of the call.
    pub fn env(&self) -> (r: NapiEnv)
        ensures
            r == self.env,
    {
        self.env
    }

    /// The function that was called.
    pub fn raw(&self) -> (r: JsValue)
        ensures
            r == self.callee,
    {
        self.callee
    }

    /// The constructor of a `new` call; `None` for a plain call.
    pub fn get_new_target(&self) -> (r: NapiResult<Option<JsObject>>)
        ensures
            self.new_target is None ==> r == Ok::<Option<JsObject>, NapiStatus>(None),
            self.new_target matches Some(t) ==> r == Ok::<Option<JsObject>, NapiStatus>(
                Some(JsObject(t)),
            ),
    {
        match self.new_target {
            Some(t) => Ok(Some(JsObject(t))),
            None => Ok(None),
        }
    }
}

/// Argument `i` casts to the kind declared for it.
pub open spec fn arg_ok(h: HostView, args: Seq<JsValue>, params: Seq<ValueKind>, i: int) -> bool {
    cast_result(h, args[i], params[i]) is Ok
}

/// The outcome of marshaling `args` against the declared kinds `params`: too few
/// arguments give `InvalidArg`; otherwise the first argument that does not cast gives its
/// kind's error; otherwise the first `params.len()` arguments.
pub open spec fn marshal_ok(h: HostView, args: Seq<JsValue>, params: Seq<ValueKind>) -> bool {
    args.len() >= params.len() && forall|i: int| 0 <= i < params.len() ==> arg_ok(h, args, params, i)
}

/// `e` is the error of the first argument that does not cast.
pub open spec fn first_failure(
    h: HostView,
    args: Seq<JsValue>,
    params: Seq<ValueKind>,
    e: NapiStatus,
) -> bool {
    exists|i: int|
        0 <= i < params.len() && (forall|j: int| 0 <= j < i ==> arg_ok(h, args, params, j))
            && cast_result(h, args[i], params[i]) == Err::<JsValue, NapiStatus>(e)
}

impl JsArgs {
    /// Checks each of the first `params.len()` arguments against the kind declared for it,
    /// in order, stopping at the first failure before anything else happens.
    pub fn from_js_args(host: &NapiHost, args: &Vec<JsValue>, params: &Vec<ValueKind>) -> (r:
        NapiResult<JsArgs>)
        requires
            host@.wf(),
        ensures
            r is Ok <==> marshal_ok(host@, args@, params@),
            args@.len() < params@.len() ==> r == Err::<JsArgs, NapiStatus>(NapiStatus::InvalidArg),
            r matches Ok(a) ==> a.0@ == args@.take(params@.len() as int),
            args@.len() >= params@.len() ==> (r matches Err(e) ==> first_failure(
                host@,
                args@,
                params@,
                e,
            )),
    {
        if args.len() < params.len() {
            return Err(NapiStatus::InvalidArg);
        }
        let mut out: Vec<JsValue> = Vec::new();
        let mut i: usize = 0;
        while i < params.len()
            invariant
                host@.wf(),
                params@.len() <= args@.len(),
                i <= params@.len(),
                out@ == args@.take(i as int),
                forall|j: int| 0 <= j < i ==> arg_ok(host@, args@, params@, j),
            decreases params@.len() - i,
        {
            match args[i].try_as(host, params[i]) {
                Ok(v) => {
                    out.push(v);
                    assert(out@ =~= args@.take(i + 1));
                },
                Err(e) => {
                    assert(!arg_ok(host@, args@, params@, i as int));
                    assert(first_failure(host@, args@, params@, e)) by {
                        assert(cast_result(host@, args@[i as int], params@[i as int]) == Err::<
                            JsValue,
                            NapiStatus,
                        >(e));
                    }
                    return Err(e);
                },
            }
            i = i + 1;
        }
        Ok(JsArgs(out))
    }
}

/// A native closure registered as a host function, with the declared kinds of its
/// arguments.
pub struct NapiCallback<F> {
    env: NapiEnv,
    function: JsValue,
    finalizer: usize,
    params: Vec<ValueKind>,
    closure: Option<F>,
    invocations: u64,
}

impl<F> NapiCallback<F> {
    /// The host function.
    pub closed spec fn function(&self) -> JsValue {
        self.function
    }

    /// The id of the finalizer that owns the closure.
    pub closed spec fn finalizer_id(&self) -> usize {
        self.finalizer
    }

    /// The declared kinds of the arguments.
    pub closed spec fn params(&self) -> Seq<ValueKind> {
        self.params@
    }

    /// The closure has not been dropped.
    pub closed spec fn holds_closure(&self) -> bool {
        self.closure is Some
    }

    /// The closure, while it is held.
    pub closed spec fn closure_of(&self) -> F {
        self.closure->0
    }

    /// How many invocations reached the closure.
    pub closed spec fn invocations(&self) -> nat {
        self.invocations as nat
    }

    /// Registers `closure` as a new host function taking arguments of the kinds `params`,
    /// with a finalizer that owns the closure.
    pub fn new(env: NapiEnv, host: &mut NapiHost, params: Vec<ValueKind>, closure: F) -> (r:
        NapiResult<NapiCallback<F>>)
        requires
            old(host)@.wf(),
        ensures
            final(host)@.wf(),
            old(host)@.succeeds(final(host)@),
            r matches Ok(cb) && {
                &&& cb.holds_closure()
                &&& cb.invocations() == 0
                &&& cb.params() == params@
                &&& cb.finalizer_id() == old(host)@.finalizers.len()
                &&& registered(old(host)@, final(host)@, cb.function())
            },
    {
        let ghost before = host@;
        let id = host.finalizer_count();
        let f = host.create(plain(Payload::Function(id)));
        let ghost mid = host@;
        let slot = host.target_of(f)?;
        let fin = host.add_finalizer(slot);
        assert(created(before, mid, f, Data::Function(before.finalizers.len() as usize)));
        Ok(NapiCallback {
            env,
            function: f,
            finalizer: fin,
            params,
            closure: Some(closure),
            invocations: 0,
        })
    }

    /// The host function.
    pub fn js_function(&self) -> (r: JsFunction)
        ensures
            r.0 == self.function(),
    {
        JsFunction(self.function)
    }

    /// The first half of an invocation: marshals the call's arguments against the declared
    /// kinds. On success the closure may be invoked with the receiver and the returned
    /// arguments; on failure it must not be, and the error is the marshaling error. A
    /// dropped closure gives `GenericFailure`.
    pub fn prepare(&mut self, host: &NapiHost, info: &CallbackInfo) -> (r: NapiResult<JsArgs>)
        requires
            host@.wf(),
        ensures
            final(self).function() == old(self).function(),
            final(self).finalizer_id() == old(self).finalizer_id(),
            final(self).params() == old(self).params(),
            final(self).holds_closure() == old(self).holds_closure(),
            kept(*old(self), *final(self)),
            final(self).closure_of() == old(self).closure_of(),
            !old(self).holds_closure() ==> r == Err::<JsArgs, NapiStatus>(NapiStatus::GenericFailure),
            old(self).holds_closure() && r is Err ==> marshal_error(host@, info.args@, old(self).params(), r->Err_0),
            old(self).holds_closure() ==> (r is Ok <==> marshal_ok(host@, info.args@, old(self).params())),
            old(self).holds_closure() && info.args@.len() < old(self).params().len() ==> r == Err::<
                JsArgs,
                NapiStatus,
            >(NapiStatus::InvalidArg),
            old(self).holds_closure() && info.args@.len() >= old(self).params().len() ==> (r matches Err(e)
                ==> first_failure(host@, info.args@, old(self).params(), e)),
            r matches Ok(a) ==> a.0@ == info.args@.take(old(self).params().len() as int),
            r is Ok ==> final(self).invocations() == old(self).invocations() + 1 || old(self).invocations()
                == u64::MAX,
            r is Err ==> final(self).invocations() == old(self).invocations(),
    {
        if self.closure.is_none() {
            return Err(NapiStatus::GenericFailure);
        }
        let a = JsArgs::from_js_args(host, &info.args, &self.params)?;
        if self.invocations < u64::MAX {
            self.invocations = self.invocations + 1;
        }
        Ok(a)
    }

    /// The id of the finalizer that owns the closure.
    pub fn finalizer(&self) -> (r: usize)
        ensures
            r == self.finalizer_id(),
    {
        self.finalizer
    }

    /// The boxed closure, borrowed; `None` once it has been dropped.
    pub fn closure(&self) -> (r: Option<&F>)
        ensures
            r is Some <==> self.holds_closure(),
    {
        match &self.closure {
            Some(f) => Some(f),
            None => None,
        }
    }

    /// Drops the closure in response to its finalizer: this happens exactly once, on the
    /// first call after the host reported the finalizer fired. Returns whether it happened
    /// now.
    pub fn finalize(&mut self, host: &NapiHost) -> (r: bool)
        ensures
            r == (old(self).holds_closure() && old(self).finalizer_id() < host@.finalizers.len()
                && host@.finalizers[old(self).finalizer_id() as int].fired),
            final(self).holds_closure() == (old(self).holds_closure() && !r),
            finalize_step(*old(self), *final(self), host@, r),
            final(self).function() == old(self).function(),
            final(self).finalizer_id() == old(self).finalizer_id(),
            final(self).params() == old(self).params(),
            final(self).invocations() == old(self).invocations(),
    {
        if self.closure.is_some() && host.finalizer_fired(self.finalizer) {
            self.closure = None;
            true
        } else {
            false
        }
    }
}

impl NapiEnv {
    /// Registers the native closure `func` as a new host function taking arguments of the
    /// kinds `params`.
    pub fn func<F>(&self, host: &mut NapiHost, params: Vec<ValueKind>, func: F) -> (r: NapiResult<NapiCallback<F>>)
        requires
            old(host)@.wf(),
        ensures
            final(host)@.wf(),
            old(host)@.succeeds(final(host)@),
            r matches Ok(cb) && {
                &&& cb.holds_closure()
                &&& cb.invocations() == 0
                &&& cb.params() == params@
                &&& cb.finalizer_id() == old(host)@.finalizers.len()
                &&& registered(old(host)@, final(host)@, cb.function())
            },
    {
        NapiCallback::new(*self, host, params, func)
    }
}

/// `after` is `before` with a new function value (whose callback id is the id of its
/// finalizer), a handle `f` to it, and that finalizer attached.
pub open spec fn registered(before: HostView, after: HostView, f: JsValue) -> bool {
    made_with_finalizer(before, after, f, Data::Function(before.finalizers.len() as usize))
}

/// What `complete_call` does with `outcome`: a value is returned as it is and nothing
/// changes; an error is thrown as an `Error` carrying the status message (an exception
/// already pending is kept) and a handle to `undefined` is returned.
pub open spec fn completed(before: HostView, after: HostView, outcome: NapiResult<JsValue>, r: JsValue) -> bool {
    match outcome {
        Ok(v) => r == v && after == before,
        Err(e) => exists|mid: HostView|
            {
                &&& thrown(before, mid, ErrorKind::Error, status_message(e))
                &&& handle_made(mid, after, r, UNDEFINED_SLOT)
            },
    }
}

/// `e` is the error marshaling `args` against `params` reports: `InvalidArg` for too few
/// arguments, else the error of the first argument that does not cast.
pub open spec fn marshal_error(h: HostView, args: Seq<JsValue>, params: Seq<ValueKind>, e: NapiStatus) -> bool {
    if args.len() < params.len() {
        e == NapiStatus::InvalidArg
    } else {
        first_failure(h, args, params, e)
    }
}

/// An invocation step keeps the registration as it was, closure included.
pub open spec fn kept<F>(before: NapiCallback<F>, after: NapiCallback<F>) -> bool {
    &&& after.holds_closure() == before.holds_closure()
    &&& after.function() == before.function()
    &&& after.finalizer_id() == before.finalizer_id()
    &&& after.params() == before.params()
}

/// A finalize step in host state `h`: the closure is dropped (`r`) exactly when it was
/// still held and the host has fired its finalizer; nothing else changes.
pub open spec fn finalize_step<F>(before: NapiCallback<F>, after: NapiCallback<F>, h: HostView, r: bool) -> bool {
    &&& r == (before.holds_closure() && before.finalizer_id() < h.finalizers.len()
        && h.finalizers[before.finalizer_id() as int].fired)
    &&& after.holds_closure() == (before.holds_closure() && !r)
    &&& after.function() == before.function()
    &&& after.finalizer_id() == before.finalizer_id()
    &&& after.params() == before.params()
}

impl<F: Fn(JsObject, JsArgs) -> NapiResult<JsValue>> NapiCallback<F> {
    /// A whole invocation of the trampoline for the call `info`: the arguments are
    /// marshaled; only when that succeeds is the closure called, with the receiver and the
    /// arguments, and its outcome is then handed to `complete_call`. When marshaling fails
    /// (or the closure has been dropped) the closure is not called and the error goes to
    /// `complete_call` instead. The closure is borrowed, never consumed.
    pub fn invoke(&mut self, host: &mut NapiHost, info: &CallbackInfo) -> (r: JsValue)
        requires
            old(host)@.wf(),
            forall|t: JsObject, a: JsArgs| old(self).closure_of().requires((t, a)),
        ensures
            final(host)@.wf(),
            old(host)@.succeeds(final(host)@),
            kept(*old(self), *final(self)),
            final(self).closure_of() == old(self).closure_of(),
            !old(self).holds_closure() ==> completed(
                old(host)@,
                final(host)@,
                Err(NapiStatus::GenericFailure),
                r,
            ),
            old(self).holds_closure() && !marshal_ok(old(host)@, info.args@, old(self).params())
                ==> exists|e: NapiStatus|
                {
                    &&& marshal_error(old(host)@, info.args@, old(self).params(), e)
                    &&& completed(old(host)@, final(host)@, Err(e), r)
                },
            old(self).holds_closure() && marshal_ok(old(host)@, info.args@, old(self).params())
                ==> exists|a: JsArgs, out: NapiResult<JsValue>|
                {
                    &&& a.0@ == info.args@.take(old(self).params().len() as int)
                    &&& old(self).closure_of().ensures((JsObject(info.this), a), out)
                    &&& completed(old(host)@, final(host)@, out, r)
                },
    {
        let outcome = match self.prepare(host, info) {
            Ok(args) => {
                let ghost a = args;
                match &self.closure {
                    Some(f) => {
                        let out = f(JsObject(info.this), args);
                        assert(old(self).closure_of().ensures((JsObject(info.this), a), out));
                        out
                    },
                    None => Err(NapiStatus::GenericFailure),
                }
            },
            Err(e) => Err(e),
        };
        complete_call(host, outcome)
    }
}

/// What the module entry hands the host for the outcome of initialising the exports: the
/// exports on success; on failure the error is thrown as an `Error` carrying its status
/// message, unless an exception is pending already, and null (`None`) is returned.
pub fn register_module(host: &mut NapiHost, exports: JsObject, outcome: NapiResult<()>) -> (r: Option<JsValue>)
    requires
        old(host)@.wf(),
    ensures
        final(host)@.wf(),
        old(host)@.succeeds(final(host)@),
        outcome is Ok ==> r == Some(exports.0) && final(host)@ == old(host)@,
        outcome matches Err(e) ==> r is None && thrown(old(host)@, final(host)@, ErrorKind::Error, status_message(e)),
{
    match outcome {
        Ok(()) => Some(exports.0),
        Err(e) => {
            let msg = e.message();
            let _ = throw_kind(host, ErrorKind::Error, msg);
            None
        },
    }
}

/// The second half of an invocation: turns the closure's outcome into the handle the host
/// receives. A value is returned as it is; an error is thrown as an `Error` carrying the
/// status message (an exception already pending is kept) and `undefined` is returned, so
/// the host never receives a null handle.
pub fn complete_call(host: &mut NapiHost, outcome: NapiResult<JsValue>) -> (r: JsValue)
    requires
        old(host)@.wf(),
    ensures
        final(host)@.wf(),
        old(host)@.succeeds(final(host)@),
        completed(old(host)@, final(host)@, outcome, r),
{
    match outcome {
        Ok(v) => {
            v
        },
        Err(e) => {
            let msg = e.message();
            let _ = throw_kind(host, ErrorKind::Error, msg);
            let ghost mid = host@;
            let u = host.new_handle(UNDEFINED_SLOT);
            assert(handle_made(mid, host@, u, UNDEFINED_SLOT));
            u
        },
    }
}

} // verus!
