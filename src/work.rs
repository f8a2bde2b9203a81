//! Background work: a unit of work that runs off the event-loop thread, then completes on
//! it. The work item is a state machine: queued at most once, cancellable only before it
//! starts, completed exactly once, and never deleted while queued but not completed.
use vstd::prelude::*;
use crate::host::{created, Data, JsValue, NapiEnv, NapiHost};
use crate::status::{NapiResult, NapiStatus};
use crate::value::JsString;

verus! {

/// Where a work item is in its life.
#[derive(Clone, Copy, Debug, PartialEq, Eq, Structural)]
pub enum WorkPhase {
    /// Made, not queued yet.
    Created,
    /// Queued, not picked up by a worker yet.
    Queued,
    /// Picked up by a worker; its execute step has not run yet.
    Running,
    /// Its execute step has run; completion is due.
    Executed,
    /// Cancelled before it started; completion with `Cancelled` is due.
    Cancelled,
    /// Its completion has run and handed the state back.
    Completed,
    /// Its host object has been freed.
    Deleted,
}

/// A work item carrying the state that its execute step changes and its completion
/// receives.
pub struct NapiAsyncWork<T> {
    env: NapiEnv,
    name: JsValue,
    phase: WorkPhase,
    state: Option<T>,
}

/// The status a completion reports after the given phase: `Ok` after the execute step ran,
/// `Cancelled` after a cancellation.
pub open spec fn completion_status(p: WorkPhase) -> NapiStatus {
    if p == WorkPhase::Cancelled {
        NapiStatus::Cancelled
    } else {
        NapiStatus::NapiOk
    }
}

/// The work item is queued and its completion has not run.
pub open spec fn outstanding(p: WorkPhase) -> bool {
    p == WorkPhase::Queued || p == WorkPhase::Running || p == WorkPhase::Executed || p
        == WorkPhase::Cancelled
}

/// The outcome of `queue` in phase `p`: only a work item not queued yet can be queued.
pub open spec fn queue_result(p: WorkPhase) -> NapiResult<()> {
    if p == WorkPhase::Created {
        Ok(())
    } else {
        Err(NapiStatus::GenericFailure)
    }
}

/// The phase after `queue` in phase `p`.
pub open spec fn after_queue(p: WorkPhase) -> WorkPhase {
    if p == WorkPhase::Created {
        WorkPhase::Queued
    } else {
        p
    }
}

/// The outcome of `cancel` in phase `p`: only queued work that no worker picked up can be
/// cancelled.
pub open spec fn cancel_result(p: WorkPhase) -> NapiResult<()> {
    if p == WorkPhase::Queued {
        Ok(())
    } else {
        Err(NapiStatus::GenericFailure)
    }
}

/// The phase after `cancel` in phase `p`.
pub open spec fn after_cancel(p: WorkPhase) -> WorkPhase {
    if p == WorkPhase::Queued {
        WorkPhase::Cancelled
    } else {
        p
    }
}

/// The phase after `delete` in phase `p`: freed before queuing or after completion;
/// unchanged, with nothing freed, while queued and not completed.
pub open spec fn after_delete(p: WorkPhase) -> WorkPhase {
    if outstanding(p) {
        p
    } else {
        WorkPhase::Deleted
    }
}

/// Completion is due in phase `p`.
pub open spec fn completion_due(p: WorkPhase) -> bool {
    p == WorkPhase::Executed || p == WorkPhase::Cancelled
}

impl<T> NapiAsyncWork<T> {
    /// The phase of the work item.
    pub closed spec fn phase(&self) -> WorkPhase {
        self.phase
    }

    /// The state the work item carries; `None` once completion has taken it.
    pub closed spec fn state(&self) -> Option<T> {
        self.state
    }

    /// The environment the work item was made in.
    pub closed spec fn spec_env(&self) -> NapiEnv {
        self.env
    }

    /// The handle of the work item's resource name.
    pub closed spec fn spec_raw(&self) -> JsValue {
        self.name
    }

    /// A work item named `name` carrying `state`. The name becomes a host string, which
    /// identifies the work item.
    pub fn new(env: NapiEnv, host: &mut NapiHost, name: &str, state: T) -> (r: NapiResult<
        NapiAsyncWork<T>,
    >)
        requires
            old(host)@.wf(),
        ensures
            final(host)@.wf(),
            old(host)@.succeeds(final(host)@),
            r matches Ok(w) && {
                &&& created(old(host)@, final(host)@, w.spec_raw(), Data::Text(name@))
                &&& w.spec_env() == env
                &&& w.phase() == WorkPhase::Created
                &&& w.state() == Some(state)
            },
    {
        let name = JsString::new(env, host, name)?;
        Ok(NapiAsyncWork { env, name: name.0, phase: WorkPhase::Created, state: Some(state) })
    }

    /// The environment the work item was made in.
    pub fn env(&self) -> (r: NapiEnv)
        ensures
            r == self.spec_env(),
    {
        self.env
    }

    /// The handle that identifies the work item.
    pub fn raw(&self) -> (r: JsValue)
        ensures
            r == self.spec_raw(),
    {
        self.name
    }

    /// The phase of the work item.
    pub fn current_phase(&self) -> (r: WorkPhase)
        ensures
            r == self.phase(),
    {
        self.phase
    }

    /// Schedules the work item. It can be queued once: any later call fails with
    /// `GenericFailure` and changes nothing.
    pub fn queue(&mut self) -> (r: NapiResult<()>)
        ensures
            final(self).spec_env() == old(self).spec_env(),
            final(self).spec_raw() == old(self).spec_raw(),
            final(self).state() == old(self).state(),
            r == queue_result(old(self).phase()),
            final(self).phase() == after_queue(old(self).phase()),
    {
        if self.phase == WorkPhase::Created {
            self.phase = WorkPhase::Queued;
            Ok(())
        } else {
            Err(NapiStatus::GenericFailure)
        }
    }

    /// Cancels the work item if it is queued and no worker has picked it up; its
    /// completion will then report `Cancelled`. In any other phase it fails with
    /// `GenericFailure` and changes nothing.
    pub fn cancel(&mut self) -> (r: NapiResult<()>)
        ensures
            final(self).spec_env() == old(self).spec_env(),
            final(self).spec_raw() == old(self).spec_raw(),
            final(self).state() == old(self).state(),
            r == cancel_result(old(self).phase()),
            final(self).phase() == after_cancel(old(self).phase()),
    {
        if self.phase == WorkPhase::Queued {
            self.phase = WorkPhase::Cancelled;
            Ok(())
        } else {
            Err(NapiStatus::GenericFailure)
        }
    }

    /// A worker picks the queued work item up. Fails with `GenericFailure`, changing
    /// nothing, unless the work item is queued.
    pub fn start(&mut self) -> (r: NapiResult<()>)
        ensures
            final(self).spec_env() == old(self).spec_env(),
            final(self).spec_raw() == old(self).spec_raw(),
            final(self).state() == old(self).state(),
            old(self).phase() == WorkPhase::Queued ==> r == Ok::<(), NapiStatus>(()) && final(self).phase() == WorkPhase::Running,
            old(self).phase() != WorkPhase::Queued ==> r == Err::<(), NapiStatus>(
                NapiStatus::GenericFailure,
            ) && final(self).phase() == old(self).phase(),
    {
        if self.phase == WorkPhase::Queued {
            self.phase = WorkPhase::Running;
            Ok(())
        } else {
            Err(NapiStatus::GenericFailure)
        }
    }

    /// Runs the execute step on the worker: `f` receives the state and returns the new
    /// one. It touches no handle. Fails with `GenericFailure`, changing nothing, unless a
    /// worker has picked the work item up and the step has not run yet.
    pub fn execute<F: FnOnce(T) -> T>(&mut self, f: F) -> (r: NapiResult<()>)
        requires
            forall|t: T| f.requires((t,)),
        ensures
            final(self).spec_env() == old(self).spec_env(),
            final(self).spec_raw() == old(self).spec_raw(),
            old(self).phase() == WorkPhase::Running && old(self).state() is Some ==> {
                &&& r == Ok::<(), NapiStatus>(())
                &&& final(self).phase() == WorkPhase::Executed
                &&& final(self).state() matches Some(s) && f.ensures(
                    (old(self).state()->0,),
                    s,
                )
            },
            !(old(self).phase() == WorkPhase::Running && old(self).state() is Some) ==> r
                == Err::<(), NapiStatus>(NapiStatus::GenericFailure) && final(self).phase()
                == old(self).phase() && final(self).state() == old(self).state(),
    {
        if self.phase != WorkPhase::Running {
            return Err(NapiStatus::GenericFailure);
        }
        match self.state.take() {
            Some(s) => {
                let s2 = f(s);
                self.state = Some(s2);
                self.phase = WorkPhase::Executed;
                Ok(())
            },
            None => Err(NapiStatus::GenericFailure),
        }
    }

    /// Runs the completion on the event-loop thread: hands back the status (`Ok` after the
    /// execute step, `Cancelled` after a cancellation) and the state. Fails with
    /// `GenericFailure`, changing nothing, in any other phase.
    pub fn complete(&mut self) -> (r: NapiResult<(NapiStatus, T)>)
        ensures
            final(self).spec_env() == old(self).spec_env(),
            final(self).spec_raw() == old(self).spec_raw(),
            completion_due(old(self).phase()) && old(self).state() is Some ==> {
                &&& r == Ok::<(NapiStatus, T), NapiStatus>(
                    (completion_status(old(self).phase()), old(self).state()->0),
                )
                &&& final(self).phase() == WorkPhase::Completed
                &&& final(self).state() is None
            },
            !(completion_due(old(self).phase()) && old(self).state() is Some) ==> r == Err::<
                (NapiStatus, T),
                NapiStatus,
            >(NapiStatus::GenericFailure) && final(self).phase() == old(self).phase()
                && final(self).state() == old(self).state(),
    {
        if self.phase != WorkPhase::Executed && self.phase != WorkPhase::Cancelled {
            return Err(NapiStatus::GenericFailure);
        }
        let status = if self.phase == WorkPhase::Cancelled {
            NapiStatus::Cancelled
        } else {
            NapiStatus::NapiOk
        };
        match self.state.take() {
            Some(s) => {
                self.phase = WorkPhase::Completed;
                Ok((status, s))
            },
            None => Err(NapiStatus::GenericFailure),
        }
    }

    /// Frees the host object of the work item, before it is queued or after its
    /// completion. A work item that is queued and not completed is never freed: the call
    /// then does nothing. Either way it succeeds.
    pub fn delete(&mut self) -> (r: NapiResult<()>)
        ensures
            r == Ok::<(), NapiStatus>(()),
            final(self).phase() == after_delete(old(self).phase()),
            final(self).state() == old(self).state(),
            final(self).spec_env() == old(self).spec_env(),
            final(self).spec_raw() == old(self).spec_raw(),
    {
        match self.phase {
            WorkPhase::Created | WorkPhase::Completed => {
                self.phase = WorkPhase::Deleted;
            },
            _ => {},
        }
        Ok(())
    }
}

impl NapiEnv {
    /// A work item named `name` carrying `state`.
    pub fn async_work<T>(&self, host: &mut NapiHost, name: &str, state: T) -> (r: NapiResult<
        NapiAsyncWork<T>,
    >)
        requires
            old(host)@.wf(),
        ensures
            final(host)@.wf(),
            old(host)@.succeeds(final(host)@),
            r matches Ok(w) && {
                &&& created(old(host)@, final(host)@, w.spec_raw(), Data::Text(name@))
                &&& w.spec_env() == *self
                &&& w.phase() == WorkPhase::Created
                &&& w.state() == Some(state)
            },
    {
        NapiAsyncWork::new(*self, host, name, state)
    }
}

} // verus!
