//! Threadsafe functions: a queue through which any thread asks for a native callback to
//! run on the event-loop thread, kept alive by explicit acquire and release.
use vstd::prelude::*;
use crate::host::{created, Data, JsValue, NapiEnv, NapiHost};
use crate::kinds::{NapiThreadsafeFunctionCallMode, NapiThreadsafeFunctionReleaseMode};
use crate::status::{NapiResult, NapiStatus};
use crate::value::{JsFunction, JsString, ValueKind};

verus! {

/// A threadsafe function carrying call data of type `D`.
pub struct NapiThreadsafeFunction<D> {
    env: NapiEnv,
    name: JsValue,
    func: JsValue,
    max_queue: usize,
    queue: Vec<D>,
    threads: usize,
    closing: bool,
    aborted: bool,
    referenced: bool,
    finalized: bool,
}

/// The outcome of a call made from a thread other than the event-loop thread: `Closing`
/// once the function is closing; `QueueFull` for a non-blocking call on a full bounded
/// queue; otherwise the data is queued. A blocking call on a full queue waits until the
/// event loop makes room, so it completes in a state where the queue has room.
pub open spec fn call_outcome(
    closing: bool,
    queued: nat,
    max_queue: nat,
    mode: NapiThreadsafeFunctionCallMode,
) -> NapiResult<()> {
    if closing {
        Err(NapiStatus::Closing)
    } else if max_queue > 0 && queued >= max_queue && mode == NapiThreadsafeFunctionCallMode::Nonblocking {
        Err(NapiStatus::QueueFull)
    } else {
        Ok(())
    }
}

/// The outcome of a call made on the event-loop thread: as `call_outcome`, except that a
/// blocking call on a full queue fails with `WouldDeadlock`, since the thread that would
/// drain the queue is the one waiting.
pub open spec fn loop_call_outcome(
    closing: bool,
    queued: nat,
    max_queue: nat,
    mode: NapiThreadsafeFunctionCallMode,
) -> NapiResult<()> {
    if !closing && max_queue > 0 && queued >= max_queue && mode
        == NapiThreadsafeFunctionCallMode::Blocking {
        Err(NapiStatus::WouldDeadlock)
    } else {
        call_outcome(closing, queued, max_queue, mode)
    }
}

impl<D> NapiThreadsafeFunction<D> {
    /// The calls waiting for the event-loop thread, oldest first.
    pub closed spec fn queue(&self) -> Seq<D> {
        self.queue@
    }

    /// How many threads hold the function.
    pub closed spec fn threads(&self) -> nat {
        self.threads as nat
    }

    /// The queue bound; 0 for an unbounded queue.
    pub closed spec fn max_queue(&self) -> nat {
        self.max_queue as nat
    }

    /// The function accepts no more calls.
    pub closed spec fn closing(&self) -> bool {
        self.closing
    }

    /// The function was aborted: queued calls are dropped.
    pub closed spec fn aborted(&self) -> bool {
        self.aborted
    }

    /// The function keeps the event loop alive.
    pub closed spec fn referenced(&self) -> bool {
        self.referenced
    }

    /// The finalizer has run.
    pub closed spec fn finalized(&self) -> bool {
        self.finalized
    }

    /// The environment the function was made in.
    pub closed spec fn spec_env(&self) -> NapiEnv {
        self.env
    }

    /// The handle that identifies the function.
    pub closed spec fn spec_raw(&self) -> JsValue {
        self.name
    }

    /// The callback the function calls on the event-loop thread.
    pub closed spec fn callback(&self) -> JsValue {
        self.func
    }

    /// The state is consistent: an aborted function is closing and holds no calls, and a
    /// function no thread holds is closing.
    pub closed spec fn wf(&self) -> bool {
        &&& self.aborted ==> self.closing && self.queue@.len() == 0
        &&& self.threads == 0 ==> self.closing
        &&& self.finalized ==> self.closing
    }

    /// The bounded queue holds as many calls as it may.
    pub open spec fn full(&self) -> bool {
        self.max_queue() > 0 && self.queue().len() >= self.max_queue()
    }

    /// A blocking call from another thread may return in this state: the function is
    /// closing, or the queue has room.
    pub open spec fn can_return_blocking(&self) -> bool {
        self.closing() || !self.full()
    }

    /// The outcome of a call in this state.
    pub open spec fn outcome(&self, mode: NapiThreadsafeFunctionCallMode) -> NapiResult<()> {
        call_outcome(self.closing(), self.queue().len(), self.max_queue(), mode)
    }

    /// A threadsafe function named `name` that calls `func`, held by the calling thread,
    /// with a queue bounded by `max_queue` (0 for no bound). `FunctionExpected` when
    /// `func` is not a function, `InvalidArg` when it is a dead handle.
    pub fn new(
        env: NapiEnv,
        host: &mut NapiHost,
        name: &str,
        func: JsFunction,
        max_queue: usize,
    ) -> (r: NapiResult<NapiThreadsafeFunction<D>>)
        requires
            old(host)@.wf(),
        ensures
            final(host)@.wf(),
            old(host)@.succeeds(final(host)@),
            r is Ok <==> old(host)@.valid(func.0) && old(host)@.data(func.0.raw) is Function,
            !old(host)@.valid(func.0) ==> r == Err::<NapiThreadsafeFunction<D>, NapiStatus>(
                NapiStatus::InvalidArg,
            ),
            old(host)@.valid(func.0) && !(old(host)@.data(func.0.raw) is Function) ==> r
                == Err::<NapiThreadsafeFunction<D>, NapiStatus>(NapiStatus::FunctionExpected),
            r is Err ==> final(host)@ == old(host)@,
            r matches Ok(t) ==> {
                &&& created(old(host)@, final(host)@, t.spec_raw(), Data::Text(name@))
                &&& t.wf()
                &&& t.spec_env() == env
                &&& t.callback() == func.0
                &&& t.queue() == Seq::<D>::empty()
                &&& t.threads() == 1
                &&& t.max_queue() == max_queue
                &&& !t.closing() && !t.aborted() && !t.finalized() && t.referenced()
            },
    {
        let f = func.0.try_as(host, ValueKind::Function)?;
        let name = JsString::new(env, host, name)?;
        let queue: Vec<D> = Vec::new();
        Ok(NapiThreadsafeFunction {
            env,
            name: name.0,
            func: f,
            max_queue,
            queue,
            threads: 1,
            closing: false,
            aborted: false,
            referenced: true,
            finalized: false,
        })
    }

    /// The environment the function was made in.
    pub fn env(&self) -> (r: NapiEnv)
        ensures
            r == self.spec_env(),
    {
        self.env
    }

    /// The handle that identifies the function.
    pub fn raw(&self) -> (r: JsValue)
        ensures
            r == self.spec_raw(),
    {
        self.name
    }

    /// Asks, from a thread other than the event-loop thread, for `data` to be handed to the
    /// callback on the event-loop thread. Fails with `Closing` once the function is
    /// closing, and a non-blocking call on a full queue with `QueueFull`. A blocking call
    /// waits for room: it is made here in the state it resumes in, where the queue has room
    /// or the function is closing. The data is queued only on success.
    pub fn call(&mut self, data: D, mode: NapiThreadsafeFunctionCallMode) -> (r: NapiResult<()>)
        requires
            old(self).wf(),
            mode == NapiThreadsafeFunctionCallMode::Blocking ==> old(self).can_return_blocking(),
        ensures
            final(self).wf(),
            r == old(self).outcome(mode),
            r is Ok ==> final(self).queue() == old(self).queue().push(data),
            r is Err ==> final(self).queue() == old(self).queue(),
            final(self).threads() == old(self).threads(),
            final(self).max_queue() == old(self).max_queue(),
            final(self).closing() == old(self).closing(),
            final(self).aborted() == old(self).aborted(),
            final(self).referenced() == old(self).referenced(),
            final(self).finalized() == old(self).finalized(),
            final(self).spec_env() == old(self).spec_env(),
            final(self).spec_raw() == old(self).spec_raw(),
            final(self).callback() == old(self).callback(),
    {
        if self.closing {
            return Err(NapiStatus::Closing);
        }
        if self.max_queue > 0 && self.queue.len() >= self.max_queue {
            return Err(NapiStatus::QueueFull);
        }
        self.queue.push(data);
        Ok(())
    }

    /// Asks, from the event-loop thread itself, for `data` to be handed to the callback.
    /// As `call`, except that a blocking call on a full queue fails with `WouldDeadlock`
    /// instead of waiting, since this thread is the one that drains the queue.
    pub fn call_from_loop(&mut self, data: D, mode: NapiThreadsafeFunctionCallMode) -> (r: NapiResult<()>)
        requires
            old(self).wf(),
        ensures
            final(self).wf(),
            r == loop_call_outcome(old(self).closing(), old(self).queue().len(), old(self).max_queue(), mode),
            r is Ok ==> final(self).queue() == old(self).queue().push(data),
            r is Err ==> final(self).queue() == old(self).queue(),
            final(self).threads() == old(self).threads(),
            final(self).max_queue() == old(self).max_queue(),
            final(self).closing() == old(self).closing(),
            final(self).aborted() == old(self).aborted(),
            final(self).referenced() == old(self).referenced(),
            final(self).finalized() == old(self).finalized(),
            final(self).spec_env() == old(self).spec_env(),
            final(self).spec_raw() == old(self).spec_raw(),
            final(self).callback() == old(self).callback(),
    {
        if !self.closing && self.max_queue > 0 && self.queue.len() >= self.max_queue {
            if let NapiThreadsafeFunctionCallMode::Blocking = mode {
                return Err(NapiStatus::WouldDeadlock);
            }
        }
        self.call(data, NapiThreadsafeFunctionCallMode::Nonblocking)
    }

    /// A blocking call from a thread other than the event-loop thread (from the event-loop
    /// thread use `call_from_loop`, as a full queue would never drain). It waits for room:
    /// it is made in the state it resumes in, where the queue has room or the function is
    /// closing, and then succeeds or fails with `Closing`.
    pub fn blocking(&mut self, data: D) -> (r: NapiResult<()>)
        requires
            old(self).wf(),
            old(self).can_return_blocking(),
        ensures
            final(self).wf(),
            r == old(self).outcome(NapiThreadsafeFunctionCallMode::Blocking),
            r is Ok ==> final(self).queue() == old(self).queue().push(data),
            r is Err ==> final(self).queue() == old(self).queue(),
            final(self).threads() == old(self).threads(),
            final(self).max_queue() == old(self).max_queue(),
            final(self).closing() == old(self).closing(),
            final(self).aborted() == old(self).aborted(),
            final(self).referenced() == old(self).referenced(),
            final(self).finalized() == old(self).finalized(),
            final(self).spec_env() == old(self).spec_env(),
            final(self).spec_raw() == old(self).spec_raw(),
            final(self).callback() == old(self).callback(),
    {
        self.call(data, NapiThreadsafeFunctionCallMode::Blocking)
    }

    /// A non-blocking call: a full queue fails with `QueueFull` at once.
    pub fn non_blocking(&mut self, data: D) -> (r: NapiResult<()>)
        requires
            old(self).wf(),
        ensures
            final(self).wf(),
            r == old(self).outcome(NapiThreadsafeFunctionCallMode::Nonblocking),
            r is Ok ==> final(self).queue() == old(self).queue().push(data),
            r is Err ==> final(self).queue() == old(self).queue(),
            final(self).threads() == old(self).threads(),
            final(self).max_queue() == old(self).max_queue(),
            final(self).closing() == old(self).closing(),
            final(self).aborted() == old(self).aborted(),
            final(self).referenced() == old(self).referenced(),
            final(self).finalized() == old(self).finalized(),
            final(self).spec_env() == old(self).spec_env(),
            final(self).spec_raw() == old(self).spec_raw(),
            final(self).callback() == old(self).callback(),
    {
        self.call(data, NapiThreadsafeFunctionCallMode::Nonblocking)
    }

    /// A thread announces that it will use the function. Fails with `Closing` once the
    /// function is closing, and with `GenericFailure` when the count cannot grow.
    pub fn acquire(&mut self) -> (r: NapiResult<()>)
        requires
            old(self).wf(),
        ensures
            final(self).wf(),
            old(self).closing() ==> r == Err::<(), NapiStatus>(NapiStatus::Closing),
            !old(self).closing() && old(self).threads() < usize::MAX ==> r == Ok::<(), NapiStatus>(
                (),
            ),
            r is Ok ==> final(self).threads() == old(self).threads() + 1,
            r is Err ==> final(self).threads() == old(self).threads(),
            final(self).queue() == old(self).queue(),
            final(self).max_queue() == old(self).max_queue(),
            final(self).closing() == old(self).closing(),
            final(self).aborted() == old(self).aborted(),
            final(self).referenced() == old(self).referenced(),
            final(self).finalized() == old(self).finalized(),
            final(self).spec_env() == old(self).spec_env(),
            final(self).spec_raw() == old(self).spec_raw(),
            final(self).callback() == old(self).callback(),
    {
        if self.closing {
            return Err(NapiStatus::Closing);
        }
        if self.threads == usize::MAX {
            return Err(NapiStatus::GenericFailure);
        }
        self.threads = self.threads + 1;
        Ok(())
    }

    /// A thread stops using the function. With `Release` queued calls still drain, and the
    /// function closes when no thread holds it; with `Abort` it closes at once and queued
    /// calls are dropped. Fails with `InvalidArg`, changing nothing, when no thread holds it.
    pub fn release_with(&mut self, mode: NapiThreadsafeFunctionReleaseMode) -> (r: NapiResult<()>)
        requires
            old(self).wf(),
        ensures
            final(self).wf(),
            released(*old(self), *final(self), mode, r),
    {
        if self.threads == 0 {
            return Err(NapiStatus::InvalidArg);
        }
        self.threads = self.threads - 1;
        match mode {
            NapiThreadsafeFunctionReleaseMode::Abort => {
                self.aborted = true;
                self.closing = true;
                self.queue.clear();
            },
            NapiThreadsafeFunctionReleaseMode::Release => {
                if self.threads == 0 {
                    self.closing = true;
                }
            },
        }
        Ok(())
    }

    /// `release_with(Release)`.
    pub fn release(&mut self) -> (r: NapiResult<()>)
        requires
            old(self).wf(),
        ensures
            final(self).wf(),
            released(*old(self), *final(self), NapiThreadsafeFunctionReleaseMode::Release, r),
    {
        self.release_with(NapiThreadsafeFunctionReleaseMode::Release)
    }

    /// `release_with(Abort)`.
    pub fn abort(&mut self) -> (r: NapiResult<()>)
        requires
            old(self).wf(),
        ensures
            final(self).wf(),
            released(*old(self), *final(self), NapiThreadsafeFunctionReleaseMode::Abort, r),
    {
        self.release_with(NapiThreadsafeFunctionReleaseMode::Abort)
    }

    /// The event-loop thread takes the oldest queued call, if any.
    pub fn dispatch(&mut self) -> (r: Option<D>)
        requires
            old(self).wf(),
        ensures
            final(self).wf(),
            old(self).queue().len() == 0 ==> r is None && final(self).queue() == old(self).queue(),
            old(self).queue().len() > 0 ==> r == Some(old(self).queue()[0]) && final(self).queue()
                == old(self).queue().drop_first(),
            final(self).threads() == old(self).threads(),
            final(self).max_queue() == old(self).max_queue(),
            final(self).closing() == old(self).closing(),
            final(self).aborted() == old(self).aborted(),
            final(self).referenced() == old(self).referenced(),
            final(self).finalized() == old(self).finalized(),
            final(self).spec_env() == old(self).spec_env(),
            final(self).spec_raw() == old(self).spec_raw(),
            final(self).callback() == old(self).callback(),
    {
        if self.queue.len() == 0 {
            return None;
        }
        let d = self.queue.remove(0);
        assert(self.queue@ =~= old(self).queue@.drop_first());
        Some(d)
    }

    /// The event-loop thread runs the finalizer: it fires once, when the function is
    /// closing and its queue has drained. Returns whether it fired now.
    pub fn finalize(&mut self) -> (r: bool)
        requires
            old(self).wf(),
        ensures
            final(self).wf(),
            r == (old(self).closing() && old(self).queue().len() == 0 && !old(self).finalized()),
            final(self).finalized() == (old(self).finalized() || r),
            final(self).queue() == old(self).queue(),
            final(self).threads() == old(self).threads(),
            final(self).max_queue() == old(self).max_queue(),
            final(self).closing() == old(self).closing(),
            final(self).aborted() == old(self).aborted(),
            final(self).referenced() == old(self).referenced(),
            final(self).spec_env() == old(self).spec_env(),
            final(self).spec_raw() == old(self).spec_raw(),
            final(self).callback() == old(self).callback(),
    {
        if self.closing && self.queue.len() == 0 && !self.finalized {
            self.finalized = true;
            true
        } else {
            false
        }
    }

    /// Makes the function keep the event loop alive. Idempotent.
    pub fn refer(&mut self) -> (r: NapiResult<()>)
        requires
            old(self).wf(),
        ensures
            final(self).wf(),
            r == Ok::<(), NapiStatus>(()),
            final(self).referenced(),
            final(self).queue() == old(self).queue(),
            final(self).threads() == old(self).threads(),
            final(self).max_queue() == old(self).max_queue(),
            final(self).closing() == old(self).closing(),
            final(self).aborted() == old(self).aborted(),
            final(self).finalized() == old(self).finalized(),
            final(self).spec_env() == old(self).spec_env(),
            final(self).spec_raw() == old(self).spec_raw(),
            final(self).callback() == old(self).callback(),
    {
        self.referenced = true;
        Ok(())
    }

    /// Lets the event loop exit while the function still exists. Idempotent.
    pub fn unref(&mut self) -> (r: NapiResult<()>)
        requires
            old(self).wf(),
        ensures
            final(self).wf(),
            r == Ok::<(), NapiStatus>(()),
            !final(self).referenced(),
            final(self).queue() == old(self).queue(),
            final(self).threads() == old(self).threads(),
            final(self).max_queue() == old(self).max_queue(),
            final(self).closing() == old(self).closing(),
            final(self).aborted() == old(self).aborted(),
            final(self).finalized() == old(self).finalized(),
            final(self).spec_env() == old(self).spec_env(),
            final(self).spec_raw() == old(self).spec_raw(),
            final(self).callback() == old(self).callback(),
    {
        self.referenced = false;
        Ok(())
    }
}

/// What `release_with(mode)` does: with no holder it fails with `InvalidArg` and changes
/// nothing; otherwise one holder fewer, closing at once on `Abort` (dropping queued calls)
/// or when the last holder lets go.
pub open spec fn released<D>(
    before: NapiThreadsafeFunction<D>,
    after: NapiThreadsafeFunction<D>,
    mode: NapiThreadsafeFunctionReleaseMode,
    r: NapiResult<()>,
) -> bool {
    &&& after.max_queue() == before.max_queue()
    &&& after.referenced() == before.referenced()
    &&& after.finalized() == before.finalized()
    &&& after.spec_env() == before.spec_env()
    &&& after.spec_raw() == before.spec_raw()
    &&& after.callback() == before.callback()
    &&& if before.threads() == 0 {
        &&& r == Err::<(), NapiStatus>(NapiStatus::InvalidArg)
        &&& after.threads() == before.threads()
        &&& after.queue() == before.queue()
        &&& after.closing() == before.closing()
        &&& after.aborted() == before.aborted()
    } else {
        &&& r == Ok::<(), NapiStatus>(())
        &&& after.threads() == before.threads() - 1
        &&& if mode == NapiThreadsafeFunctionReleaseMode::Abort {
            &&& after.aborted()
            &&& after.closing()
            &&& after.queue() == Seq::<D>::empty()
        } else {
            &&& after.aborted() == before.aborted()
            &&& after.queue() == before.queue()
            &&& after.closing() == (before.closing() || after.threads() == 0)
        }
    }
}

impl NapiEnv {
    /// A threadsafe function named `name` that calls `func`, with a queue bounded by
    /// `max_queue` (0 for no bound).
    pub fn tsfn<D>(&self, host: &mut NapiHost, name: &str, func: JsFunction, max_queue: usize) -> (r:
        NapiResult<NapiThreadsafeFunction<D>>)
        requires
            old(host)@.wf(),
        ensures
            final(host)@.wf(),
            old(host)@.succeeds(final(host)@),
            r is Ok <==> old(host)@.valid(func.0) && old(host)@.data(func.0.raw) is Function,
            r is Err ==> final(host)@ == old(host)@,
            r matches Ok(t) ==> {
                &&& created(old(host)@, final(host)@, t.spec_raw(), Data::Text(name@))
                &&& t.wf()
                &&& t.spec_env() == *self
                &&& t.callback() == func.0
                &&& t.queue() == Seq::<D>::empty()
                &&& t.threads() == 1
                &&& t.max_queue() == max_queue
                &&& !t.closing() && !t.aborted() && !t.finalized() && t.referenced()
            },
    {
        NapiThreadsafeFunction::new(*self, host, name, func, max_queue)
    }
}

} // verus!
