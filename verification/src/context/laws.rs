use vstd::prelude::*;

use crate::context::common::{
    acquire_result, acquire_state, init_state, release_state, shrink_count, shrink_state, PoolView,
};

verus! {

/// One abstract operation on a pool: checking a buffer out, a live guard
/// returning its buffer, or one shrink cycle.
pub ghost enum PoolOp {
    Acquire,
    Release(Seq<u8>),
    Shrink,
}

/// What holds of every reachable pool state: it is well formed, and it never
/// holds more idle buffers than allocated ones.
pub open spec fn reachable_wf(v: PoolView) -> bool {
    &&& v.wf()
    &&& v.idle.len() <= v.total
}

/// The state after one operation. A release only ever comes from a live
/// guard, so it is enabled only while some buffer is checked out, and only
/// hands back a buffer of the pool's size; a release outside that
/// discipline is excluded and leaves the state unchanged here.
pub open spec fn step(v: PoolView, op: PoolOp) -> PoolView {
    match op {
        PoolOp::Acquire => acquire_state(v),
        PoolOp::Release(buffer) => if v.idle.len() < v.total && buffer.len() == v.size {
            release_state(v, buffer)
        } else {
            v
        },
        PoolOp::Shrink => shrink_state(v),
    }
}

/// The state after a whole sequence of operations.
pub open spec fn run(v: PoolView, ops: Seq<PoolOp>) -> PoolView
    decreases ops.len(),
{
    if ops.len() == 0 {
        v
    } else {
        run(step(v, ops.first()), ops.drop_first())
    }
}

/// No operation changes the buffer size, the floor or the cap.
pub proof fn lemma_step_preserves_config(v: PoolView, op: PoolOp)
    ensures
        step(v, op).size == v.size,
        step(v, op).floor == v.floor,
        step(v, op).cap == v.cap,
{
}

/// One operation takes a reachable state to a reachable state.
pub proof fn lemma_step_preserves_reachable_wf(v: PoolView, op: PoolOp)
    requires
        reachable_wf(v),
    ensures
        reachable_wf(step(v, op)),
{
    match op {
        PoolOp::Acquire => {
            if v.idle.len() > 0 {
                assert(acquire_state(v).idle =~= v.idle.drop_last());
            }
        },
        PoolOp::Release(buffer) => {},
        PoolOp::Shrink => {
            assert(shrink_count(v) <= v.low);
            assert(shrink_state(v).idle =~= v.idle.take(v.idle.len() - shrink_count(v)));
        },
    }
}

/// A sequence of operations takes a reachable state to a reachable state,
/// and changes neither the buffer size, nor the floor, nor the cap.
pub proof fn lemma_run_preserves_reachable_wf(v: PoolView, ops: Seq<PoolOp>)
    requires
        reachable_wf(v),
    ensures
        reachable_wf(run(v, ops)),
        run(v, ops).size == v.size,
        run(v, ops).floor == v.floor,
        run(v, ops).cap == v.cap,
    decreases ops.len(),
{
    if ops.len() > 0 {
        lemma_step_preserves_reachable_wf(v, ops.first());
        lemma_step_preserves_config(v, ops.first());
        lemma_run_preserves_reachable_wf(step(v, ops.first()), ops.drop_first());
    }
}

/// The pool invariant: starting from any configuration, after any sequence
/// of guard-disciplined operations the reached state keeps the configured
/// floor between the floor and the cap (`floor <= total <= cap`), holds no
/// more idle buffers than allocated ones (`idle <= total`), and its
/// low-water mark never exceeds the idle count (`low <= idle`).
pub proof fn lemma_pool_state_invariant(size: nat, floor: nat, cap: nat, ops: Seq<PoolOp>)
    ensures
        ({
            let reached = run(init_state(size, floor, cap), ops);
            &&& reached.size == size
            &&& reached.floor == floor
            &&& reached.cap == init_state(size, floor, cap).cap
            &&& floor <= reached.total
            &&& reached.total <= reached.cap
            &&& reached.idle.len() <= reached.total
            &&& reached.low <= reached.idle.len()
        }),
{
    let init = init_state(size, floor, cap);
    assert(reachable_wf(init));
    lemma_run_preserves_reachable_wf(init, ops);
}

/// Round trip: releasing a buffer into a well-formed pool and then
/// acquiring returns that very buffer, and restores the pool state exactly.
/// Reuse keeps both the buffer's contents and its length.
pub proof fn lemma_release_acquire_round_trip(v: PoolView, buffer: Seq<u8>)
    requires
        v.wf(),
        buffer.len() == v.size,
    ensures
        acquire_result(release_state(v, buffer)) == Some(buffer),
        acquire_state(release_state(v, buffer)) == v,
{
    assert(v.idle.push(buffer).drop_last() =~= v.idle);
    assert(acquire_state(release_state(v, buffer)) =~= v);
}

} // verus!
