//! Promises and their deferred halves: the deferred settles the promise once, by
//! resolving or by rejecting it.
use vstd::prelude::*;
use crate::host::{created, handle_made, plain, Data, HostView, JsValue, NapiEnv, NapiHost, Payload, PromiseState};
use crate::status::{NapiResult, NapiStatus};
use crate::work::{NapiAsyncWork, WorkPhase};

verus! {

/// A promise value and the id of the deferred that settles it.
#[derive(Clone, Copy, Debug, PartialEq, Eq, Structural)]
pub struct JsPromise {
    pub value: JsValue,
    pub deferred: usize,
}

/// The outcome of settling promise `p` with the value behind `v`: `InvalidArg` for a dead
/// handle or an unknown deferred, `Closing` when the deferred was already consumed.
pub open spec fn settle_outcome(h: HostView, p: JsPromise, v: JsValue) -> NapiResult<()> {
    if !h.valid(v) || p.deferred >= h.promises.len() {
        Err(NapiStatus::InvalidArg)
    } else if h.promises[p.deferred as int] != PromiseState::Pending {
        Err(NapiStatus::Closing)
    } else {
        Ok(())
    }
}

impl JsPromise {
    /// The environment of the promise.
    pub fn env(&self) -> (r: NapiEnv)
        ensures
            r == self.value.env,
    {
        self.value.env
    }

    /// The handle slot of the promise value.
    pub fn raw(&self) -> (r: usize)
        ensures
            r == self.value.raw,
    {
        self.value.raw
    }

    /// The promise value.
    pub fn value(&self) -> (r: JsValue)
        ensures
            r == self.value,
    {
        self.value
    }

    /// A new pending promise and its deferred.
    pub fn new(env: NapiEnv, host: &mut NapiHost) -> (r: NapiResult<JsPromise>)
        requires
            old(host)@.wf(),
        ensures
            final(host)@.wf(),
            old(host)@.succeeds(final(host)@),
            r matches Ok(p) && {
                &&& p.deferred == old(host)@.promises.len()
                &&& created(
                    (HostView {
                        promises: old(host)@.promises.push(PromiseState::Pending),
                        ..old(host)@
                    }),
                    final(host)@,
                    p.value,
                    Data::Promise(p.deferred),
                )
            },
    {
        let d = host.add_promise();
        let v = host.create(plain(Payload::Promise(d)));
        Ok(JsPromise { value: v, deferred: d })
    }

    /// Settles the promise with `value` as its fulfilment. The deferred is consumed: any
    /// later `resolve` or `reject` fails with `Closing`.
    pub fn resolve(&self, host: &mut NapiHost, resolution: JsValue) -> (r: NapiResult<()>)
        requires
            old(host)@.wf(),
        ensures
            final(host)@.wf(),
            old(host)@.succeeds(final(host)@),
            r == settle_outcome(old(host)@, *self, resolution),
            r is Err ==> final(host)@ == old(host)@,
            r is Ok ==> final(host)@ == (HostView {
                promises: old(host)@.promises.update(
                    self.deferred as int,
                    PromiseState::Fulfilled(old(host)@.target(resolution.raw)),
                ),
                ..old(host)@
            }),
    {
        self.settle(host, resolution, true)
    }

    /// Settles the promise with `value` as its rejection. The deferred is consumed: any
    /// later `resolve` or `reject` fails with `Closing`.
    pub fn reject(&self, host: &mut NapiHost, rejection: JsValue) -> (r: NapiResult<()>)
        requires
            old(host)@.wf(),
        ensures
            final(host)@.wf(),
            old(host)@.succeeds(final(host)@),
            r == settle_outcome(old(host)@, *self, rejection),
            r is Err ==> final(host)@ == old(host)@,
            r is Ok ==> final(host)@ == (HostView {
                promises: old(host)@.promises.update(
                    self.deferred as int,
                    PromiseState::Rejected(old(host)@.target(rejection.raw)),
                ),
                ..old(host)@
            }),
    {
        self.settle(host, rejection, false)
    }

    fn settle(&self, host: &mut NapiHost, v: JsValue, fulfil: bool) -> (r: NapiResult<()>)
        requires
            old(host)@.wf(),
        ensures
            final(host)@.wf(),
            old(host)@.succeeds(final(host)@),
            r == settle_outcome(old(host)@, *self, v),
            r is Err ==> final(host)@ == old(host)@,
            r is Ok ==> final(host)@ == (HostView {
                promises: old(host)@.promises.update(
                    self.deferred as int,
                    if fulfil {
                        PromiseState::Fulfilled(old(host)@.target(v.raw))
                    } else {
                        PromiseState::Rejected(old(host)@.target(v.raw))
                    },
                ),
                ..old(host)@
            }),
    {
        let t = host.target_of(v)?;
        match host.promise_state(self.deferred) {
            None => Err(NapiStatus::InvalidArg),
            Some(PromiseState::Pending) => {
                let st = if fulfil {
                    PromiseState::Fulfilled(t)
                } else {
                    PromiseState::Rejected(t)
                };
                host.settle(self.deferred, st);
                Ok(())
            },
            Some(_) => Err(NapiStatus::Closing),
        }
    }

    /// The state of the promise. `InvalidArg` for an unknown deferred.
    pub fn state(&self, host: &NapiHost) -> (r: NapiResult<PromiseState>)
        ensures
            self.deferred < host@.promises.len() ==> r == Ok::<PromiseState, NapiStatus>(
                host@.promises[self.deferred as int],
            ),
            self.deferred >= host@.promises.len() ==> r == Err::<PromiseState, NapiStatus>(
                NapiStatus::InvalidArg,
            ),
    {
        match host.promise_state(self.deferred) {
            Some(s) => Ok(s),
            None => Err(NapiStatus::InvalidArg),
        }
    }

    /// A new handle to the value the promise settled with, and whether it was fulfilled;
    /// `None` while it is pending. `InvalidArg` for an unknown deferred.
    pub fn settlement(&self, host: &mut NapiHost) -> (r: NapiResult<Option<(bool, JsValue)>>)
        requires
            old(host)@.wf(),
        ensures
            final(host)@.wf(),
            old(host)@.succeeds(final(host)@),
            self.deferred >= old(host)@.promises.len() ==> r == Err::<
                Option<(bool, JsValue)>,
                NapiStatus,
            >(NapiStatus::InvalidArg) && final(host)@ == old(host)@,
            self.deferred < old(host)@.promises.len() ==> match old(host)@.promises[self.deferred as int] {
                PromiseState::Pending => r == Ok::<Option<(bool, JsValue)>, NapiStatus>(None)
                    && final(host)@ == old(host)@,
                PromiseState::Fulfilled(s) => (r matches Ok(Some((true, v))) && handle_made(
                    old(host)@,
                    final(host)@,
                    v,
                    s,
                )),
                PromiseState::Rejected(s) => (r matches Ok(Some((false, v))) && handle_made(
                    old(host)@,
                    final(host)@,
                    v,
                    s,
                )),
            },
    {
        match host.promise_state(self.deferred) {
            None => Err(NapiStatus::InvalidArg),
            Some(PromiseState::Pending) => Ok(None),
            Some(PromiseState::Fulfilled(s)) => {
                proof {
                    assert(crate::host::settled_slot(host@.promises[self.deferred as int]) == Some(s));
                }
                Ok(Some((true, host.new_handle(s))))
            },
            Some(PromiseState::Rejected(s)) => {
                proof {
                    assert(crate::host::settled_slot(host@.promises[self.deferred as int]) == Some(s));
                }
                Ok(Some((false, host.new_handle(s))))
            },
        }
    }

    /// A pending promise together with a queued work item carrying `state`; the work item's
    /// completion is where the promise is meant to be settled.
    pub fn spawn<T>(env: NapiEnv, host: &mut NapiHost, state: T) -> (r: NapiResult<(JsPromise, NapiAsyncWork<T>)>)
        requires
            old(host)@.wf(),
        ensures
            final(host)@.wf(),
            old(host)@.succeeds(final(host)@),
            r matches Ok((p, w)) && {
                &&& p.deferred == old(host)@.promises.len()
                &&& final(host)@.promises[p.deferred as int] == PromiseState::Pending
                &&& w.phase() == WorkPhase::Queued
                &&& w.state() == Some(state)
            },
    {
        let p = JsPromise::new(env, host)?;
        let ghost mid = host@;
        let mut w = NapiAsyncWork::new(env, host, "napi-promise-task", state)?;
        let _ = w.queue();
        assert(host@.promises == mid.promises);
        Ok((p, w))
    }
}

impl NapiEnv {
    /// A new pending promise and its deferred.
    pub fn promise(&self, host: &mut NapiHost) -> (r: NapiResult<JsPromise>)
        requires
            old(host)@.wf(),
        ensures
            final(host)@.wf(),
            old(host)@.succeeds(final(host)@),
            r matches Ok(p) && {
                &&& p.deferred == old(host)@.promises.len()
                &&& created(
                    (HostView {
                        promises: old(host)@.promises.push(PromiseState::Pending),
                        ..old(host)@
                    }),
                    final(host)@,
                    p.value,
                    Data::Promise(p.deferred),
                )
            },
    {
        JsPromise::new(*self, host)
    }
}

} // verus!
