//! Classes: a native constructor registered as a host function, with its members defined
//! on it.
use vstd::prelude::*;
use crate::callback::{registered, NapiCallback};
use crate::descriptor::{after_writes, define_properties, desc_entries, desc_views, descs_ok, NapiPropertyDescriptor};
use crate::host::{with_finalized_value, Data, HostView, NapiEnv, NapiHost};
use crate::object::object_result;
use crate::status::{NapiResult, NapiStatus};
use crate::value::{JsClass, ValueKind};

verus! {

/// The state right after the constructor of a class is registered in `before`.
pub open spec fn class_registered(before: HostView) -> HostView {
    with_finalized_value(before, Data::Function(before.finalizers.len() as usize))
}

impl JsClass {
    /// A class whose constructor is the native closure `constructor`, taking
    /// arguments of the kinds `params`, with the members `properties` defined on the
    /// constructor. The constructor stays registered even when a member is refused; the
    /// members are checked before any is defined. The constructor's closure is owned by the
    /// returned registration and is dropped once, by its `finalize` after the host fires
    /// the finalizer; when a member is refused the registration, closure included, is
    /// dropped before returning.
    pub fn new<F>(
        env: NapiEnv,
        host: &mut NapiHost,
        params: Vec<ValueKind>,
        constructor: F,
        properties: &Vec<NapiPropertyDescriptor>,
    ) -> (r: NapiResult<(JsClass, NapiCallback<F>)>)
        requires
            old(host)@.wf(),
        ensures
            final(host)@.wf(),
            old(host)@.succeeds(final(host)@),
            r is Ok <==> descs_ok(class_registered(old(host)@), desc_views(properties@)),
            r matches Ok((c, cb)) ==> {
                &&& c.0 == cb.function()
                &&& cb.holds_closure()
                &&& cb.params() == params@
                &&& cb.finalizer_id() == old(host)@.finalizers.len()
                &&& registered(old(host)@, class_registered(old(host)@), c.0)
                &&& final(host)@ == after_writes(
                    class_registered(old(host)@),
                    old(host)@.values.len() as usize,
                    desc_entries(class_registered(old(host)@), desc_views(properties@)),
                )
            },
    {
        let ghost h0 = host@;
        let cb = NapiCallback::new(env, host, params, constructor)?;
        let ghost h1 = host@;
        assert(h1 == class_registered(h0));
        let f = cb.js_function();
        assert(object_result(h1, f.0) == Ok::<usize, NapiStatus>(h0.values.len() as usize)) by {
            assert(h1.handles[f.0.raw as int].target == h0.values.len());
            assert(h1.frames == h0.frames);
        }
        match define_properties(host, f.0, properties) {
            Ok(()) => Ok((JsClass(f.0), cb)),
            Err(e) => Err(e),
        }
    }
}

} // verus!
