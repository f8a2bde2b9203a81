//! Laws of the ownership model, proved over the contracts of the operations they relate.
use vstd::prelude::*;
use crate::callback::{finalize_step, kept, NapiCallback};
use crate::promise::{settle_outcome, JsPromise};
use crate::host::{collectible, PromiseState, created, escape_allowed, frame_at, lemma_frame_at, Data, Frame, Handle, HostView, JsValue};
use crate::kinds::{NapiThreadsafeFunctionCallMode, NapiThreadsafeFunctionReleaseMode};
use crate::primitive::data_of;
use crate::scope::{closed, opened};
use crate::status::{NapiResult, NapiStatus};
use crate::tsfn::{released, NapiThreadsafeFunction};
use crate::value::{check_result, ValueKind};
use crate::work::{after_cancel, after_queue, cancel_result, completion_status, completion_due, queue_result, WorkPhase};

verus! {

/// A handle made in a scope is dead once that scope has closed: every query on it is
/// rejected with `InvalidArg`, in the state right after the close and in every later state
/// of the host, since no closed scope is ever open again.
pub proof fn lemma_handle_dies_with_its_scope(
    before: HostView,
    after: HostView,
    later: HostView,
    id: u64,
    v: JsValue,
    k: ValueKind,
)
    requires
        before.wf(),
        closed(before, after, id, Ok::<(), NapiStatus>(())),
        v.raw < before.handles.len(),
        before.handles[v.raw as int].scope == id,
        after.succeeds(later),
    ensures
        !after.live(v.raw),
        !later.live(v.raw),
        check_result(later, v, k) == Err::<bool, NapiStatus>(NapiStatus::InvalidArg),
{
    let raw = v.raw;
    let n = before.frames.len();
    assert(before.frames[n - 1].id == id);
    assert(after.frames =~= before.frames.drop_last());
    assert(!after.scope_open(id)) by {
        if after.scope_open(id) {
            let i = choose|i: int| 0 <= i < after.frames.len() && after.frames[i].id == id;
            assert(before.frames[i].id < before.frames[n - 1].id);
        }
    }
    assert(after.handles[raw as int] == before.handles[raw as int]);
    assert(later.handles[raw as int] == after.handles[raw as int]);
    assert(id < after.next_scope);
    assert(!later.scope_open(id)) by {
        if later.scope_open(id) {
            let i = choose|i: int| 0 <= i < later.frames.len() && later.frames[i].id == id;
            assert(after.scope_open(later.frames[i].id));
        }
    }
}

/// Scopes close in reverse order of opening: closing an outer scope while an inner one is
/// still open is reported as `HandleScopeMismatch` and leaves the stack as it was.
pub proof fn lemma_out_of_order_close_is_a_mismatch(
    h0: HostView,
    h1: HostView,
    h2: HostView,
    h3: HostView,
    outer: u64,
    inner: u64,
    outer_escapable: bool,
    inner_escapable: bool,
    r: NapiResult<()>,
)
    requires
        h0.wf(),
        opened(h0, h1, outer, outer_escapable),
        opened(h1, h2, inner, inner_escapable),
        closed(h2, h3, outer, r),
    ensures
        r == Err::<(), NapiStatus>(NapiStatus::HandleScopeMismatch),
        h3 == h2,
{
    assert(h2.top().id == inner);
    assert(inner == outer + 1);
}

/// Escaping succeeds once per scope: after one successful escape from scope `id`, every
/// later escape from it fails with `EscapeCalledTwice`, which the contract of `escape`
/// gives for a scope whose frame is marked escaped.
pub proof fn lemma_escape_once(before: HostView, after: HostView, id: u64, v: JsValue)
    requires
        before.wf(),
        after.wf(),
        escape_allowed(before, id, v),
        after == (HostView {
            frames: before.frames.update(
                frame_at(before, id),
                Frame { escaped: true, ..before.frames[frame_at(before, id)] },
            ),
            handles: before.handles.push(
                Handle {
                    target: before.target(v.raw),
                    scope: before.frames[frame_at(before, id) - 1].id,
                },
            ),
            ..before
        }),
    ensures
        after.scope_open(id),
        after.frames[frame_at(after, id)].escaped,
{
    let i = frame_at(before, id);
    assert(after.frames[i].id == id);
    lemma_frame_at(after, id, i);
}

/// Creating a host value from a native string, number, boolean or big integer and reading
/// it back gives back what was stored: the value holds exactly the data it was created with.
pub proof fn lemma_created_value_reads_back(before: HostView, after: HostView, v: JsValue, d: Data)
    requires
        before.wf(),
        created(before, after, v, d),
    ensures
        data_of(after, v) == Some(d),
{
    let top = before.frames.last();
    assert(after.frames[after.frames.len() - 1].id == top.id);
    assert(after.handles[v.raw as int].target == before.values.len());
}

/// Reading back a native `i32` stored as a number, a `u32` stored as a number, and an
/// `i64` or `u64` stored as a big integer loses nothing.
pub proof fn lemma_integer_round_trips(a: i32, b: u32, c: i64, d: u64)
    ensures
        (a as i64) as i32 == a,
        (b as i64) as u32 == b,
        (c as i128) as i64 == c,
        i64::MIN <= c as i128 <= i64::MAX,
        (d as i128) as u64 == d,
        0 <= d as i128 <= u64::MAX,
{
}

/// Queuing a work item a second time fails, whatever happened between the two calls
/// except a failed first call.
pub proof fn lemma_queue_once(p: WorkPhase)
    requires
        queue_result(p) is Ok,
    ensures
        queue_result(after_queue(p)) == Err::<(), NapiStatus>(NapiStatus::GenericFailure),
{
}

/// A work item cancelled before a worker picked it up completes with `Cancelled`; one
/// whose completion has run cannot be cancelled.
pub proof fn lemma_cancel_before_start(p: WorkPhase)
    requires
        p == WorkPhase::Queued,
    ensures
        cancel_result(p) is Ok,
        completion_due(after_cancel(p)),
        completion_status(after_cancel(p)) == NapiStatus::Cancelled,
        cancel_result(WorkPhase::Completed) == Err::<(), NapiStatus>(NapiStatus::GenericFailure),
        cancel_result(WorkPhase::Running) == Err::<(), NapiStatus>(NapiStatus::GenericFailure),
{
}

/// Once every holder has released a threadsafe function, or one has aborted it, every
/// further call fails with `Closing`, blocking or not.
pub proof fn lemma_released_function_is_closing<D>(
    before: NapiThreadsafeFunction<D>,
    after: NapiThreadsafeFunction<D>,
    mode: NapiThreadsafeFunctionReleaseMode,
    call_mode: NapiThreadsafeFunctionCallMode,
)
    requires
        released(before, after, mode, Ok::<(), NapiStatus>(())),
        mode == NapiThreadsafeFunctionReleaseMode::Abort || after.threads() == 0,
    ensures
        after.closing(),
        after.outcome(call_mode) == Err::<(), NapiStatus>(NapiStatus::Closing),
{
}

/// A value once collected can never be collected again, so the finalizers attached to it
/// fire in that one collection and no other.
pub proof fn lemma_collected_once(after: HostView, later: HostView, slot: usize)
    requires
        slot < after.values.len(),
        after.values[slot as int].collected,
        after.succeeds(later),
    ensures
        !collectible(later, slot),
{
}

/// How many of the steps dropped the closure.
pub open spec fn count_drops(rs: Seq<bool>) -> nat
    decreases rs.len(),
{
    if rs.len() == 0 {
        0
    } else {
        (if rs[0] {
            1nat
        } else {
            0nat
        }) + count_drops(rs.drop_first())
    }
}

/// A run of a registration: `cbs[i + 1]` follows `cbs[i]` by an invocation step (the
/// relation `kept` that `prepare` and `invoke` ensure, dropping nothing) or by a finalize
/// step in host state `hosts[i]` (the relation `finalize` ensures), and `rs[i]` says
/// whether that step dropped the closure.
pub open spec fn callback_run<F>(cbs: Seq<NapiCallback<F>>, hosts: Seq<HostView>, rs: Seq<bool>) -> bool {
    &&& cbs.len() == rs.len() + 1
    &&& hosts.len() == rs.len()
    &&& forall|i: int|
        0 <= i < rs.len() ==> (kept(cbs[i], cbs[i + 1]) && !rs[i]) || finalize_step(
            cbs[i],
            cbs[i + 1],
            hosts[i],
            rs[i],
        )
}

/// However many times the trampoline is invoked, and whenever finalizing is attempted,
/// a registration's closure is dropped at most once; never when it was not held at the
/// start; and exactly once when it was held at the start and is gone at the end.
pub proof fn lemma_closure_dropped_once<F>(cbs: Seq<NapiCallback<F>>, hosts: Seq<HostView>, rs: Seq<bool>)
    requires
        callback_run(cbs, hosts, rs),
    ensures
        count_drops(rs) <= 1,
        !cbs[0].holds_closure() ==> count_drops(rs) == 0,
        count_drops(rs) == 1 ==> !cbs.last().holds_closure(),
        cbs[0].holds_closure() && !cbs.last().holds_closure() ==> count_drops(rs) == 1,
        count_drops(rs) == 0 ==> cbs.last().holds_closure() == cbs[0].holds_closure(),
    decreases rs.len(),
{
    if rs.len() > 0 {
        let cs = cbs.drop_first();
        let hs = hosts.drop_first();
        let ts = rs.drop_first();
        assert forall|i: int|
            0 <= i < ts.len() implies (kept(cs[i], cs[i + 1]) && !ts[i]) || finalize_step(
            cs[i],
            cs[i + 1],
            hs[i],
            ts[i],
        ) by {
            assert(cs[i] == cbs[i + 1] && cs[i + 1] == cbs[i + 2] && hs[i] == hosts[i + 1] && ts[i]
                == rs[i + 1]);
        }
        lemma_closure_dropped_once(cs, hs, ts);
        assert(cs.last() == cbs.last());
        assert((kept(cbs[0], cbs[1]) && !rs[0]) || finalize_step(cbs[0], cbs[1], hosts[0], rs[0]));
    }
}

/// A deferred settles its promise once: after a successful `resolve` or `reject`, every
/// later `resolve` or `reject` of that promise fails.
pub proof fn lemma_promise_settles_once(
    before: HostView,
    after: HostView,
    p: JsPromise,
    v: JsValue,
    w: JsValue,
    fulfil: bool,
)
    requires
        settle_outcome(before, p, v) is Ok,
        after == (HostView {
            promises: before.promises.update(
                p.deferred as int,
                if fulfil {
                    PromiseState::Fulfilled(before.target(v.raw))
                } else {
                    PromiseState::Rejected(before.target(v.raw))
                },
            ),
            ..before
        }),
    ensures
        settle_outcome(after, p, w) is Err,
        after.valid(w) ==> settle_outcome(after, p, w) == Err::<(), NapiStatus>(NapiStatus::Closing),
{
}

} // verus!
