//! The reserve/commit protocol, modelled over the counter values.
//!
//! Every operation of the producer and the consumer first reads the shared
//! counters and then decides from the values read alone. The decision
//! rules live here as spec functions, the executable gates that apply them
//! carry exact contracts, and the proof functions state the ordering laws
//! of the protocol: a ghost ring state steps through reservations and
//! commits, and the laws hold for every counter value, not just the ones a
//! particular run happens to read.

use crate::errors::RingBufferError;
use crate::wrap::{
    lemma_wrap_add_assoc, lemma_wrap_add_injective, lemma_wrap_sub_chain, lemma_wrap_sub_of_add,
    wrap_add, wrap_inc, wrap_sub,
};
use vstd::prelude::*;

verus! {

/// A producer may reserve while its next index is less than a full ring
/// ahead of the head it observed.
pub open spec fn producer_can_reserve(head: u32, shadow_tail: u32, len: nat) -> bool {
    wrap_sub(shadow_tail, head) < len
}

/// A consumer may reserve while its next index has not caught up with the
/// tail it observed.
pub open spec fn consumer_can_reserve(shadow_head: u32, tail: u32) -> bool {
    shadow_head != tail
}

/// A reservation commits only when its index is exactly the current value
/// of the externally visible counter: commits apply in reservation order.
pub open spec fn can_commit(index: u32, visible: u32) -> bool {
    index == visible
}

/// Decides a producer-side reservation from the observed head and the
/// private shadow tail.
pub fn producer_reserve_gate(head: u32, shadow_tail: u32, len: usize) -> (r: bool)
    ensures
        r == producer_can_reserve(head, shadow_tail, len as nat),
{
    (shadow_tail.wrapping_sub(head) as usize) < len
}

/// Decides a consumer-side reservation from the private shadow head and
/// the observed tail.
pub fn consumer_reserve_gate(shadow_head: u32, tail: u32) -> (r: bool)
    ensures
        r == consumer_can_reserve(shadow_head, tail),
{
    shadow_head != tail
}

/// Decides whether the ring is "not yet full" from an occupancy reading:
/// true while the occupancy is below the physical entries length.
pub fn not_full_gate(occupancy: u32, len: usize) -> (r: bool)
    ensures
        r == ((occupancy as nat) < len as nat),
{
    (occupancy as usize) < len
}

/// Decides a commit from the reservation's index and the observed value of
/// the externally visible counter.
pub fn commit_gate(index: u32, visible: u32) -> (r: Result<(), RingBufferError>)
    ensures
        r is Ok <==> can_commit(index, visible),
        r is Err ==> r->Err_0 == RingBufferError::CommitOutOfOrder,
{
    if index == visible {
        Ok(())
    } else {
        Err(RingBufferError::CommitOutOfOrder)
    }
}

/// The counters of one ring: the two externally visible counters and the
/// two private shadow counters that track the next index to hand out.
pub struct RingState {
    pub head: u32,
    pub tail: u32,
    pub shadow_head: u32,
    pub shadow_tail: u32,
}

/// A successful producer reservation advances the shadow tail by one.
pub open spec fn producer_reserve_step(s: RingState) -> RingState {
    RingState { shadow_tail: wrap_inc(s.shadow_tail), ..s }
}

/// A successful producer commit advances the visible tail by one.
pub open spec fn producer_commit_step(s: RingState) -> RingState {
    RingState { tail: wrap_inc(s.tail), ..s }
}

/// A successful consumer reservation advances the shadow head by one.
pub open spec fn consumer_reserve_step(s: RingState) -> RingState {
    RingState { shadow_head: wrap_inc(s.shadow_head), ..s }
}

/// A successful consumer commit advances the visible head by one.
pub open spec fn consumer_commit_step(s: RingState) -> RingState {
    RingState { head: wrap_inc(s.head), ..s }
}

/// The safety invariant of a ring of capacity `len`: the published items
/// together with the outstanding producer reservations never exceed the
/// capacity, and the outstanding consumer reservations never exceed the
/// published items. In particular the occupancy `tail - head` always lies
/// in `[0, len]`.
pub open spec fn ring_inv(s: RingState, len: nat) -> bool {
    &&& wrap_sub(s.tail, s.head) + wrap_sub(s.shadow_tail, s.tail) <= len
    &&& wrap_sub(s.shadow_head, s.head) <= wrap_sub(s.tail, s.head)
}

/// A freshly constructed pair of roles satisfies the ring invariant: each
/// shadow counter is seeded from the counter it shadows, and the occupancy
/// is within capacity.
pub proof fn lemma_initial_state_inv(head: u32, tail: u32, len: nat)
    requires
        wrap_sub(tail, head) <= len,
    ensures
        ring_inv((RingState { head, tail, shadow_head: head, shadow_tail: tail }), len),
{
}

/// An enabled producer reservation preserves the ring invariant.
pub proof fn lemma_producer_reserve_preserves_inv(s: RingState, len: nat)
    requires
        ring_inv(s, len),
        len < 0x1_0000_0000,
        producer_can_reserve(s.head, s.shadow_tail, len),
    ensures
        ring_inv(producer_reserve_step(s), len),
{
    lemma_wrap_sub_chain(s.shadow_tail, s.tail, s.head);
}

/// A producer commit of an outstanding reservation preserves the ring
/// invariant and publishes exactly one entry.
pub proof fn lemma_producer_commit_preserves_inv(s: RingState, len: nat)
    requires
        ring_inv(s, len),
        len < 0x1_0000_0000,
        wrap_sub(s.shadow_tail, s.tail) >= 1,
    ensures
        ring_inv(producer_commit_step(s), len),
        wrap_sub(producer_commit_step(s).tail, s.head) == wrap_sub(s.tail, s.head) + 1,
{
}

/// An enabled consumer reservation preserves the ring invariant.
pub proof fn lemma_consumer_reserve_preserves_inv(s: RingState, len: nat)
    requires
        ring_inv(s, len),
        len < 0x1_0000_0000,
        consumer_can_reserve(s.shadow_head, s.tail),
    ensures
        ring_inv(consumer_reserve_step(s), len),
{
}

/// A consumer commit of an outstanding reservation preserves the ring
/// invariant and frees exactly one entry.
pub proof fn lemma_consumer_commit_preserves_inv(s: RingState, len: nat)
    requires
        ring_inv(s, len),
        len < 0x1_0000_0000,
        wrap_sub(s.shadow_head, s.head) >= 1,
    ensures
        ring_inv(consumer_commit_step(s), len),
        wrap_sub(s.tail, consumer_commit_step(s).head) == wrap_sub(s.tail, s.head) - 1,
{
}

/// One transition of either role of the ring protocol. Commits carry the
/// model-level condition that an outstanding reservation of the expected
/// index exists.
pub enum Step {
    ProducerReserve,
    ProducerCommit,
    ConsumerReserve,
    ConsumerCommit,
}

/// Whether a protocol step is enabled in a given ring state.
pub open spec fn step_enabled(s: RingState, len: nat, step: Step) -> bool {
    match step {
        Step::ProducerReserve => producer_can_reserve(s.head, s.shadow_tail, len),
        Step::ProducerCommit => wrap_sub(s.shadow_tail, s.tail) >= 1,
        Step::ConsumerReserve => consumer_can_reserve(s.shadow_head, s.tail),
        Step::ConsumerCommit => wrap_sub(s.shadow_head, s.head) >= 1,
    }
}

/// The ring state a protocol step leads to.
pub open spec fn apply_step(s: RingState, step: Step) -> RingState {
    match step {
        Step::ProducerReserve => producer_reserve_step(s),
        Step::ProducerCommit => producer_commit_step(s),
        Step::ConsumerReserve => consumer_reserve_step(s),
        Step::ConsumerCommit => consumer_commit_step(s),
    }
}

/// The ring state after running a whole trace of protocol steps.
pub open spec fn run_trace(s: RingState, trace: Seq<Step>) -> RingState
    decreases trace.len(),
{
    if trace.len() == 0 {
        s
    } else {
        run_trace(apply_step(s, trace[0]), trace.drop_first())
    }
}

/// Whether every step of a trace is enabled when its turn comes.
pub open spec fn trace_enabled(s: RingState, len: nat, trace: Seq<Step>) -> bool
    decreases trace.len(),
{
    trace.len() == 0 || {
        &&& step_enabled(s, len, trace[0])
        &&& trace_enabled(apply_step(s, trace[0]), len, trace.drop_first())
    }
}

/// How many times a trace takes a given step.
pub open spec fn count_steps(trace: Seq<Step>, step: Step) -> nat
    decreases trace.len(),
{
    if trace.len() == 0 {
        0
    } else {
        (if trace[0] == step {
            1nat
        } else {
            0nat
        }) + count_steps(trace.drop_first(), step)
    }
}

/// A trace never takes a step more often than its own length.
proof fn lemma_count_steps_le_len(trace: Seq<Step>, step: Step)
    ensures
        count_steps(trace, step) <= trace.len(),
    decreases trace.len(),
{
    if trace.len() > 0 {
        lemma_count_steps_le_len(trace.drop_first(), step);
    }
}

/// Any interleaving of enabled producer and consumer steps keeps the ring
/// invariant, and in its terminal state the visible counters reflect
/// exactly the number of successful commits of each role: the tail has
/// advanced once per producer commit and the head once per consumer
/// commit, with none lost and none duplicated.
pub proof fn lemma_trace_counts_commits(s: RingState, len: nat, trace: Seq<Step>)
    requires
        ring_inv(s, len),
        len < 0x1_0000_0000,
        trace_enabled(s, len, trace),
        trace.len() < 0x1_0000_0000,
    ensures
        ring_inv(run_trace(s, trace), len),
        wrap_sub(run_trace(s, trace).tail, s.tail) == count_steps(trace, Step::ProducerCommit),
        wrap_sub(run_trace(s, trace).head, s.head) == count_steps(trace, Step::ConsumerCommit),
    decreases trace.len(),
{
    if trace.len() == 0 {
    } else {
        let step = trace[0];
        let s1 = apply_step(s, step);
        let rest = trace.drop_first();
        match step {
            Step::ProducerReserve => lemma_producer_reserve_preserves_inv(s, len),
            Step::ProducerCommit => lemma_producer_commit_preserves_inv(s, len),
            Step::ConsumerReserve => lemma_consumer_reserve_preserves_inv(s, len),
            Step::ConsumerCommit => lemma_consumer_commit_preserves_inv(s, len),
        }
        lemma_trace_counts_commits(s1, len, rest);
        lemma_count_steps_le_len(rest, Step::ProducerCommit);
        lemma_count_steps_le_len(rest, Step::ConsumerCommit);
        lemma_wrap_sub_chain(run_trace(s, trace).tail, s1.tail, s.tail);
        lemma_wrap_sub_chain(run_trace(s, trace).head, s1.head, s.head);
    }
}

/// One producer round: a reservation followed by its commit.
pub open spec fn producer_round(s: RingState) -> RingState {
    producer_commit_step(producer_reserve_step(s))
}

/// The ring state after `n` producer rounds.
pub open spec fn producer_rounds(s: RingState, n: nat) -> RingState
    decreases n,
{
    if n == 0 {
        s
    } else {
        producer_rounds(producer_round(s), (n - 1) as nat)
    }
}

/// Whether `n` producer rounds from `s` all succeed: each reservation is
/// enabled when made, and each commit's index is the visible tail when it
/// commits.
pub open spec fn producer_fill_ok(s: RingState, len: nat, n: nat) -> bool
    decreases n,
{
    n == 0 || {
        &&& producer_can_reserve(s.head, s.shadow_tail, len)
        &&& can_commit(s.shadow_tail, s.tail)
        &&& producer_fill_ok(producer_round(s), len, (n - 1) as nat)
    }
}

/// A single-threaded producer that reserves and commits `n` times, with
/// `n` at most the free capacity, succeeds every time, advances the tail
/// by exactly `n`, and hands out the indices `tail`, `tail + 1`, ...,
/// `tail + n - 1` in order.
pub proof fn lemma_producer_sequential_fill(s: RingState, len: nat, n: nat)
    requires
        s.shadow_tail == s.tail,
        len < 0x1_0000_0000,
        wrap_sub(s.tail, s.head) + n <= len,
    ensures
        producer_fill_ok(s, len, n),
        producer_rounds(s, n).head == s.head,
        producer_rounds(s, n).shadow_head == s.shadow_head,
        producer_rounds(s, n).tail == wrap_add(s.tail, n as int),
        producer_rounds(s, n).shadow_tail == producer_rounds(s, n).tail,
        wrap_sub(producer_rounds(s, n).tail, s.tail) == n,
        forall|i: nat|
            i < n ==> #[trigger] producer_rounds(s, i).shadow_tail == wrap_add(s.tail, i as int),
    decreases n,
{
    lemma_wrap_sub_of_add(s.tail, n as int);
    if n > 0 {
        let s1 = producer_round(s);
        lemma_producer_sequential_fill(s1, len, (n - 1) as nat);
        lemma_wrap_add_assoc(s.tail, 1, n - 1);
        assert forall|i: nat|
            i < n implies #[trigger] producer_rounds(s, i).shadow_tail == wrap_add(
            s.tail,
            i as int,
        ) by {
            if i == 0 {
                assert(producer_rounds(s, 0) == s);
            } else {
                assert(producer_rounds(s, i) == producer_rounds(s1, (i - 1) as nat));
                lemma_wrap_add_assoc(s.tail, 1, i - 1);
            }
        }
    }
}

/// No slot is handed out twice: within one fill, different rounds grant
/// different reservation indices.
pub proof fn lemma_fill_indices_distinct(s: RingState, len: nat, n: nat, i: nat, j: nat)
    requires
        s.shadow_tail == s.tail,
        len < 0x1_0000_0000,
        wrap_sub(s.tail, s.head) + n <= len,
        i < j < n,
    ensures
        producer_rounds(s, i).shadow_tail != producer_rounds(s, j).shadow_tail,
{
    lemma_producer_sequential_fill(s, len, n);
    lemma_wrap_add_injective(s.tail, i as int, j as int);
}

/// Reserving on a full ring fails: when the shadow tail is a whole ring
/// ahead of the observed head, no handle is handed out.
pub proof fn lemma_reserve_fails_when_full(s: RingState, len: nat)
    requires
        wrap_sub(s.shadow_tail, s.head) >= len,
    ensures
        !producer_can_reserve(s.head, s.shadow_tail, len),
{
}

/// Commits apply in reservation order: with the visible counter at `i`, a
/// reservation of index `i + 1` cannot commit, the reservation of index
/// `i` can, and after it publishes, the reservation of index `i + 1` can.
pub proof fn lemma_commit_in_reservation_order(i: u32)
    ensures
        !can_commit(wrap_inc(i), i),
        can_commit(i, i),
        can_commit(wrap_inc(i), wrap_inc(i)),
{
}

/// A ring whose head and tail coincide holds nothing: the occupancy is
/// zero and a consumer whose shadow head equals the tail cannot reserve.
pub proof fn lemma_fresh_ring_is_empty(c: u32)
    ensures
        wrap_sub(c, c) == 0,
        !consumer_can_reserve(c, c),
{
}

} // verus!
