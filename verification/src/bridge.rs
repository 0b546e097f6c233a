//! The poll bridge.
//!
//! The sandbox's send operation hands back a pending handle that must be
//! polled repeatedly: each poll either yields the terminal result or reports
//! "not yet" and returns the handle to poll again. The bridge turns that
//! pull-based primitive into a suspendable operation: on each scheduling
//! opportunity it performs exactly one poll; on a terminal result it delivers,
//! and otherwise it stores the returned handle back and asks the executor to
//! arm a fixed-delay timer and reschedule it.
//!
//! Polls on one handle are strictly sequential by construction: each poll
//! consumes the handle, and only an incomplete poll produces the next one.

use vstd::prelude::*;

use crate::error::SendFailure;
use crate::message::NativeResponse;

verus! {

/// How long the executor waits before rescheduling the bridge after an
/// incomplete poll: a fixed, empirically chosen low-latency/low-overhead
/// compromise, not a protocol requirement.
pub const POLL_RETRY_DELAY_MILLIS: u64 = 5;

/// What one poll of a pending handle reports: the terminal result of the
/// send, or "not yet", returning the handle to poll again later.
#[derive(PartialEq, Eq, Debug)]
pub enum PollOutcome<H> {
    Done(Result<NativeResponse, SendFailure>),
    NotYet(H),
}

/// The bridge's state: holding a handle that awaits its next poll, or done
/// with the terminal result.
#[derive(PartialEq, Eq, Debug)]
pub enum BridgeState<H> {
    Holding(H),
    Done(Result<NativeResponse, SendFailure>),
}

/// What the executor must do after a step: deliver the terminal result to
/// whatever awaits it, or arm the fixed-delay timer and reschedule the bridge.
#[derive(Clone, Copy, PartialEq, Eq, Structural, Debug)]
pub enum BridgeAction {
    Deliver,
    ArmTimer,
}

/// One scheduling opportunity: the held handle has just been polled and
/// reported `outcome`. A terminal outcome ends the bridge's life and its
/// result is delivered; "not yet" stores the returned handle back and arms
/// the timer. Nothing else ever happens: the step is total and deterministic.
pub fn bridge_step<H>(outcome: PollOutcome<H>) -> (r: (BridgeState<H>, BridgeAction))
    ensures
        match outcome {
            PollOutcome::Done(result) => r == (
                BridgeState::<H>::Done(result),
                BridgeAction::Deliver,
            ),
            PollOutcome::NotYet(handle) => r == (
                BridgeState::<H>::Holding(handle),
                BridgeAction::ArmTimer,
            ),
        },
{
    match outcome {
        PollOutcome::Done(result) => (BridgeState::Done(result), BridgeAction::Deliver),
        PollOutcome::NotYet(handle) => (BridgeState::Holding(handle), BridgeAction::ArmTimer),
    }
}

/// A scripted pending handle: reports "not yet" exactly `not_yet_remaining`
/// times, then reports the terminal `result`. It stands in for the sandbox's
/// handle wherever the bridge's behaviour is exercised without the sandbox.
#[derive(PartialEq, Eq, Debug)]
pub struct FakeHandle {
    pub not_yet_remaining: usize,
    pub result: Result<NativeResponse, SendFailure>,
}

/// Polls a scripted handle once, consuming it; an incomplete poll returns
/// the handle with one fewer "not yet" report left.
pub fn poll_fake(handle: FakeHandle) -> (outcome: PollOutcome<FakeHandle>)
    ensures
        handle.not_yet_remaining == 0 ==> outcome == PollOutcome::<FakeHandle>::Done(
            handle.result,
        ),
        handle.not_yet_remaining > 0 ==> outcome == PollOutcome::<FakeHandle>::NotYet(
            FakeHandle {
                not_yet_remaining: (handle.not_yet_remaining - 1) as usize,
                result: handle.result,
            },
        ),
{
    if handle.not_yet_remaining == 0 {
        PollOutcome::Done(handle.result)
    } else {
        PollOutcome::NotYet(
            FakeHandle {
                not_yet_remaining: handle.not_yet_remaining - 1,
                result: handle.result,
            },
        )
    }
}

/// Drives a scripted handle through the bridge to completion: polls until a
/// terminal result, arming the timer after every "not yet". The terminal
/// result is exactly the handle's scripted result, and the number of
/// reschedules is exactly the handle's "not yet" count.
#[verifier::loop_isolation(false)]
pub fn drive_fake(handle: FakeHandle) -> (r: (Result<NativeResponse, SendFailure>, usize))
    ensures
        r.0 == handle.result,
        r.1 == handle.not_yet_remaining,
{
    let ghost original = handle;
    let mut current = handle;
    let mut reschedules: usize = 0;
    loop
        invariant
            current.result == original.result,
            reschedules + current.not_yet_remaining == original.not_yet_remaining,
        decreases current.not_yet_remaining,
    {
        let outcome = poll_fake(current);
        let (next, action) = bridge_step(outcome);
        match next {
            BridgeState::Done(result) => {
                return (result, reschedules);
            },
            BridgeState::Holding(returned) => {
                current = returned;
                reschedules = reschedules + 1;
            },
        }
    }
}

/// The bridge's state after one scheduling step on a scripted handle: the
/// specification-level mirror of polling once and stepping the bridge.
pub open spec fn fake_step(state: BridgeState<FakeHandle>) -> BridgeState<FakeHandle> {
    match state {
        BridgeState::Holding(handle) => if handle.not_yet_remaining == 0 {
            BridgeState::Done(handle.result)
        } else {
            BridgeState::Holding(
                FakeHandle {
                    not_yet_remaining: (handle.not_yet_remaining - 1) as usize,
                    result: handle.result,
                },
            )
        },
        BridgeState::Done(result) => BridgeState::Done(result),
    }
}

/// The bridge's state after `n` scheduling steps on a scripted handle.
pub open spec fn fake_run(state: BridgeState<FakeHandle>, n: nat) -> BridgeState<FakeHandle>
    decreases n,
{
    if n == 0 {
        state
    } else {
        fake_run(fake_step(state), (n - 1) as nat)
    }
}

/// A finished bridge stays finished: further scheduling steps change nothing.
pub proof fn lemma_fake_run_done(result: Result<NativeResponse, SendFailure>, n: nat)
    ensures
        fake_run(BridgeState::Done(result), n) == BridgeState::<FakeHandle>::Done(result),
    decreases n,
{
    if n > 0 {
        lemma_fake_run_done(result, (n - 1) as nat);
    }
}

/// For the first `not_yet_remaining` scheduling steps the bridge is still
/// holding a handle: the terminal result is never produced early, and the
/// handle's remaining "not yet" count falls by one per step.
pub proof fn lemma_fake_run_holding(handle: FakeHandle, k: nat)
    requires
        k <= handle.not_yet_remaining,
    ensures
        fake_run(BridgeState::Holding(handle), k) == BridgeState::<FakeHandle>::Holding(
            FakeHandle {
                not_yet_remaining: (handle.not_yet_remaining - k) as usize,
                result: handle.result,
            },
        ),
    decreases k,
{
    if k > 0 {
        let next = FakeHandle {
            not_yet_remaining: (handle.not_yet_remaining - 1) as usize,
            result: handle.result,
        };
        lemma_fake_run_holding(next, (k - 1) as nat);
    }
}

/// The bridge terminates: a handle that reports "not yet" exactly `N` times
/// and then a terminal result makes the bridge deliver exactly that result
/// on the step after the `N`th reschedule, and on every later step.
pub proof fn lemma_fake_run_completes(handle: FakeHandle, n: nat)
    requires
        n > handle.not_yet_remaining,
    ensures
        fake_run(BridgeState::Holding(handle), n) == BridgeState::<FakeHandle>::Done(
            handle.result,
        ),
{
    lemma_fake_run_holding(handle, handle.not_yet_remaining as nat);
    let drained = FakeHandle { not_yet_remaining: 0, result: handle.result };
    assert(fake_run(BridgeState::Holding(handle), handle.not_yet_remaining as nat)
        == BridgeState::<FakeHandle>::Holding(drained));
    lemma_fake_run_split(
        BridgeState::Holding(handle),
        handle.not_yet_remaining as nat,
        (n - handle.not_yet_remaining) as nat,
    );
    lemma_fake_run_done(handle.result, (n - handle.not_yet_remaining - 1) as nat);
}

/// Running `m + k` steps is running `m` steps and then `k` more.
pub proof fn lemma_fake_run_split(state: BridgeState<FakeHandle>, m: nat, k: nat)
    ensures
        fake_run(state, m + k) == fake_run(fake_run(state, m), k),
    decreases m,
{
    if m > 0 {
        lemma_fake_run_split(fake_step(state), (m - 1) as nat, k);
    }
}

/// How many entries of an interleaving schedule pick the first bridge.
pub open spec fn count_first(schedule: Seq<bool>) -> nat
    decreases schedule.len(),
{
    if schedule.len() == 0 {
        0
    } else {
        (if schedule[0] {
            1nat
        } else {
            0nat
        }) + count_first(schedule.drop_first())
    }
}

/// A schedule gives out no more steps to the first bridge than it has entries.
pub proof fn lemma_count_first_le(schedule: Seq<bool>)
    ensures
        count_first(schedule) <= schedule.len(),
    decreases schedule.len(),
{
    if schedule.len() > 0 {
        lemma_count_first_le(schedule.drop_first());
    }
}

/// Two bridges driven under an interleaving schedule: each entry gives one
/// scheduling step to the first bridge (`true`) or to the second (`false`).
pub open spec fn fake_run_pair(
    first: BridgeState<FakeHandle>,
    second: BridgeState<FakeHandle>,
    schedule: Seq<bool>,
) -> (BridgeState<FakeHandle>, BridgeState<FakeHandle>)
    decreases schedule.len(),
{
    if schedule.len() == 0 {
        (first, second)
    } else if schedule[0] {
        fake_run_pair(fake_step(first), second, schedule.drop_first())
    } else {
        fake_run_pair(first, fake_step(second), schedule.drop_first())
    }
}

/// Independence: under any interleaving, each bridge ends exactly where its
/// own scheduling steps alone take it — neither bridge's progress depends on
/// the other's, so neither can block the other.
pub proof fn lemma_bridge_independence(
    first: BridgeState<FakeHandle>,
    second: BridgeState<FakeHandle>,
    schedule: Seq<bool>,
)
    ensures
        fake_run_pair(first, second, schedule).0 == fake_run(first, count_first(schedule)),
        fake_run_pair(first, second, schedule).1 == fake_run(
            second,
            (schedule.len() - count_first(schedule)) as nat,
        ),
    decreases schedule.len(),
{
    lemma_count_first_le(schedule);
    if schedule.len() > 0 {
        let rest = schedule.drop_first();
        lemma_count_first_le(rest);
        if schedule[0] {
            lemma_bridge_independence(fake_step(first), second, rest);
            assert(count_first(schedule) == 1 + count_first(rest));
            assert(fake_run(first, count_first(schedule)) == fake_run(
                fake_step(first),
                count_first(rest),
            ));
        } else {
            lemma_bridge_independence(first, fake_step(second), rest);
            assert(count_first(schedule) == count_first(rest));
            assert((schedule.len() - count_first(schedule)) as nat == 1 + (rest.len()
                - count_first(rest)));
            assert(fake_run(second, (schedule.len() - count_first(schedule)) as nat) == fake_run(
                fake_step(second),
                (rest.len() - count_first(rest)) as nat,
            ));
        }
    }
}

/// Two interleaved calls complete in an order set only by their own "not yet"
/// counts: any schedule that gives each bridge more steps than its handle's
/// count leaves both bridges done, each with its own scripted result.
pub proof fn lemma_independent_completion(
    first: FakeHandle,
    second: FakeHandle,
    schedule: Seq<bool>,
)
    requires
        count_first(schedule) > first.not_yet_remaining,
        schedule.len() - count_first(schedule) > second.not_yet_remaining,
    ensures
        fake_run_pair(BridgeState::Holding(first), BridgeState::Holding(second), schedule) == (
            BridgeState::<FakeHandle>::Done(first.result),
            BridgeState::<FakeHandle>::Done(second.result),
        ),
{
    lemma_bridge_independence(BridgeState::Holding(first), BridgeState::Holding(second), schedule);
    lemma_fake_run_completes(first, count_first(schedule));
    lemma_fake_run_completes(second, (schedule.len() - count_first(schedule)) as nat);
}

} // verus!
