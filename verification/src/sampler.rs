//! The sampling loop: what is sent at startup and on each pass, and the
//! decisions of the worker that runs the loop.
//!
//! The worker itself (its thread, the channel, the sleep) lives outside this
//! library. It performs the [`SamplerAction`] it is given, reports what
//! happened as a [`SamplerEvent`], and asks [`sampler_step`] what to do next.

use vstd::prelude::*;
use crate::extract::{
    available_memory_of, cpu_temp_max_of, cpu_temp_of, cpu_util_of, get_available_memory,
    get_cpu_temp, get_cpu_temp_max, get_cpu_util, get_total_memory, total_memory_of,
};
use crate::gpu::{
    gpu_temp_from, gpu_temp_of, gpu_util_from, gpu_util_of, total_vram_from, total_vram_of,
    used_vram_from, used_vram_of, GpuReadings, MemoryReading,
};
use crate::measurement::Measurement;
use crate::row::QueryOutcome;

verus! {

// ----- what is sent -----

/// The measurements that are sent on: all but `NaN`, in their order.
pub open spec fn forwardable_of(results: Seq<Measurement>) -> Seq<Measurement> {
    results.filter(|m: Measurement| !(m is NaN))
}

/// Appending a measurement appends it to what is sent on, unless it is `NaN`.
pub proof fn lemma_forwardable_push(results: Seq<Measurement>, m: Measurement)
    ensures
        forwardable_of(results.push(m)) == if m is NaN {
            forwardable_of(results)
        } else {
            forwardable_of(results).push(m)
        },
{
    results.lemma_filter_push(m, |m: Measurement| !(m is NaN));
}

/// Drops every `NaN` from `results` and keeps the rest in order.
pub fn forwardable(results: Vec<Measurement>) -> (r: Vec<Measurement>)
    ensures
        r@ == forwardable_of(results@),
        (forall|i: int| 0 <= i < results@.len() ==> (#[trigger] results@[i]).wf()) ==> forall|
            i: int,
        | 0 <= i < r@.len() ==> (#[trigger] r@[i]).wf(),
{
    let ghost all = results@;
    let mut kept: Vec<Measurement> = Vec::new();
    proof {
        reveal(Seq::filter);
        assert(all.take(0) =~= Seq::<Measurement>::empty());
    }
    for m in it: results
        invariant
            it.seq() == all,
            kept@ == forwardable_of(all.take(it.index() as int)),
            (forall|i: int| 0 <= i < all.len() ==> (#[trigger] all[i]).wf()) ==> forall|i: int|
                0 <= i < kept@.len() ==> (#[trigger] kept@[i]).wf(),
    {
        proof {
            let n = it.index() as int;
            assert(all.take(n + 1) =~= all.take(n).push(all[n]));
            lemma_forwardable_push(all.take(n), all[n]);
        }
        if !m.is_nan() {
            kept.push(m);
        }
    }
    assert(all.take(all.len() as int) =~= all);
    kept
}

/// The results of the startup extractors, in the order in which they run.
pub open spec fn startup_results(
    total_memory: QueryOutcome,
    device_memory: Option<MemoryReading>,
) -> Seq<Measurement> {
    seq![total_memory_of(total_memory), total_vram_of(device_memory)]
}

/// The results of the extractors of one pass, in the order in which they run.
pub open spec fn pass_results(
    zones_for_mean: QueryOutcome,
    zones_for_peak: QueryOutcome,
    available_memory: QueryOutcome,
    processors: QueryOutcome,
    gpu: GpuReadings,
) -> Seq<Measurement> {
    seq![
        cpu_temp_of(zones_for_mean),
        cpu_temp_max_of(zones_for_peak),
        available_memory_of(available_memory),
        cpu_util_of(processors),
        used_vram_of(gpu.memory),
        gpu_util_of(gpu.utilization),
        gpu_temp_of(gpu.temperature),
    ]
}

/// The one-time measurements sent before the first pass: the installed
/// physical memory, then the installed device memory, each unless it is
/// `NaN`.
pub fn startup_batch(total_memory: &QueryOutcome, device_memory: Option<MemoryReading>) -> (r:
    Vec<Measurement>)
    ensures
        r@ == forwardable_of(startup_results(*total_memory, device_memory)),
        forall|i: int| 0 <= i < r@.len() ==> (#[trigger] r@[i]).wf(),
{
    let mut results: Vec<Measurement> = Vec::new();
    results.push(get_total_memory(total_memory));
    results.push(total_vram_from(device_memory));
    assert(results@ =~= startup_results(*total_memory, device_memory));
    forwardable(results)
}

/// The measurements sent on one pass: the results of all extractors in the
/// order in which they run, without those that are `NaN`.
pub fn sample_pass(
    zones_for_mean: &QueryOutcome,
    zones_for_peak: &QueryOutcome,
    available_memory: &QueryOutcome,
    processors: &QueryOutcome,
    gpu: &GpuReadings,
) -> (r: Vec<Measurement>)
    ensures
        r@ == forwardable_of(
            pass_results(*zones_for_mean, *zones_for_peak, *available_memory, *processors, *gpu),
        ),
        forall|i: int| 0 <= i < r@.len() ==> (#[trigger] r@[i]).wf(),
{
    let mut results: Vec<Measurement> = Vec::new();
    results.push(get_cpu_temp(zones_for_mean));
    results.push(get_cpu_temp_max(zones_for_peak));
    results.push(get_available_memory(available_memory));
    results.push(get_cpu_util(processors));
    results.push(used_vram_from(gpu.memory));
    results.push(gpu_util_from(gpu.utilization));
    results.push(gpu_temp_from(gpu.temperature));
    assert(results@ =~= pass_results(
        *zones_for_mean,
        *zones_for_peak,
        *available_memory,
        *processors,
        *gpu,
    ));
    forwardable(results)
}

// ----- the worker's decisions -----

/// Where the worker stands.
#[derive(Clone, Copy, Debug, PartialEq, Eq, Structural)]
pub enum SamplerState {
    /// Initializing: the connection and the device are being acquired.
    Connecting,
    /// Initializing: the one-time measurements are being sent.
    Announcing,
    /// Sampling: a pass is being taken and sent.
    Passing,
    /// Sampling: asleep between two passes.
    Sleeping,
    /// The worker has ended, for want of a connection.
    Terminated,
}

/// The phase of the worker's life that a state belongs to.
#[derive(Clone, Copy, Debug, PartialEq, Eq, Structural)]
pub enum SamplerPhase {
    Initializing,
    Sampling,
    Terminated,
}

/// What the worker reports back.
#[derive(Clone, Copy, Debug, PartialEq, Eq, Structural)]
pub enum SamplerEvent {
    /// The connection stands; the device may be absent.
    Connected,
    /// No connection could be had.
    ConnectFailed,
    /// A batch went to the channel; `delivered` tells whether the receiver
    /// took all of it.
    Sent { delivered: bool },
    /// The interval has passed.
    Woke,
}

/// What the worker does next.
#[derive(Clone, Copy, Debug, PartialEq, Eq, Structural)]
pub enum SamplerAction {
    /// Acquire the connection and the device.
    Connect,
    /// Send the batch of [`startup_batch`].
    SendStartup,
    /// Query, and send the batch of [`sample_pass`].
    SendPass,
    /// Sleep for the interval.
    Sleep,
    /// End the worker.
    Terminate,
}

/// The phase of a state.
pub open spec fn phase_of(state: SamplerState) -> SamplerPhase {
    match state {
        SamplerState::Connecting | SamplerState::Announcing => SamplerPhase::Initializing,
        SamplerState::Passing | SamplerState::Sleeping => SamplerPhase::Sampling,
        SamplerState::Terminated => SamplerPhase::Terminated,
    }
}

/// The action that a state is waiting on.
pub open spec fn awaited_action(state: SamplerState) -> SamplerAction {
    match state {
        SamplerState::Connecting => SamplerAction::Connect,
        SamplerState::Announcing => SamplerAction::SendStartup,
        SamplerState::Passing => SamplerAction::SendPass,
        SamplerState::Sleeping => SamplerAction::Sleep,
        SamplerState::Terminated => SamplerAction::Terminate,
    }
}

/// The state that follows `state` on `event`. An event that the state does
/// not wait for leaves it as it is.
pub open spec fn next_state(state: SamplerState, event: SamplerEvent) -> SamplerState {
    match (state, event) {
        (SamplerState::Connecting, SamplerEvent::Connected) => SamplerState::Announcing,
        (SamplerState::Connecting, SamplerEvent::ConnectFailed) => SamplerState::Terminated,
        (SamplerState::Announcing, SamplerEvent::Sent { .. }) => SamplerState::Passing,
        (SamplerState::Passing, SamplerEvent::Sent { .. }) => SamplerState::Sleeping,
        (SamplerState::Sleeping, SamplerEvent::Woke) => SamplerState::Passing,
        _ => state,
    }
}

/// The state reached from `state` after a sequence of events.
pub open spec fn state_after(state: SamplerState, events: Seq<SamplerEvent>) -> SamplerState
    decreases events.len(),
{
    if events.len() == 0 {
        state
    } else {
        next_state(state_after(state, events.drop_last()), events.last())
    }
}

/// The state in which a worker starts, and its first action.
pub fn sampler_start() -> (r: (SamplerState, SamplerAction))
    ensures
        r.0 == SamplerState::Connecting,
        r.1 == awaited_action(r.0),
{
    (SamplerState::Connecting, SamplerAction::Connect)
}

/// The state that follows `state` on `event`, and the action to perform in
/// it.
///
/// A failed delivery changes nothing: the worker goes on as after a
/// delivery. Only the want of a connection ends it.
pub fn sampler_step(state: SamplerState, event: SamplerEvent) -> (r: (
    SamplerState,
    SamplerAction,
))
    ensures
        r.0 == next_state(state, event),
        r.1 == awaited_action(r.0),
{
    let next = match (state, event) {
        (SamplerState::Connecting, SamplerEvent::Connected) => SamplerState::Announcing,
        (SamplerState::Connecting, SamplerEvent::ConnectFailed) => SamplerState::Terminated,
        (SamplerState::Announcing, SamplerEvent::Sent { .. }) => SamplerState::Passing,
        (SamplerState::Passing, SamplerEvent::Sent { .. }) => SamplerState::Sleeping,
        (SamplerState::Sleeping, SamplerEvent::Woke) => SamplerState::Passing,
        _ => state,
    };
    let action = match next {
        SamplerState::Connecting => SamplerAction::Connect,
        SamplerState::Announcing => SamplerAction::SendStartup,
        SamplerState::Passing => SamplerAction::SendPass,
        SamplerState::Sleeping => SamplerAction::Sleep,
        SamplerState::Terminated => SamplerAction::Terminate,
    };
    (next, action)
}

// ----- laws of the loop -----

/// A `NaN` is never sent on.
pub proof fn law_nan_is_never_forwarded(results: Seq<Measurement>)
    ensures
        forall|i: int|
            0 <= i < forwardable_of(results).len() ==> !(#[trigger] forwardable_of(results)[i]
                is NaN),
{
    broadcast use Seq::lemma_filter_pred;

}

/// Every result that is not `NaN` is sent on.
pub proof fn law_results_are_forwarded(results: Seq<Measurement>, i: int)
    requires
        0 <= i < results.len(),
        !(results[i] is NaN),
    ensures
        forwardable_of(results).contains(results[i]),
{
    results.lemma_filter_contains(|m: Measurement| !(m is NaN), i);
}

/// What is sent on keeps the order in which the extractors ran: the results
/// of a first part come before those of the part that follows it.
pub proof fn law_forwarding_keeps_order(first: Seq<Measurement>, rest: Seq<Measurement>)
    ensures
        forwardable_of(first + rest) == forwardable_of(first) + forwardable_of(rest),
{
    Seq::filter_distributes_over_add(first, rest, |m: Measurement| !(m is NaN));
}

/// Once sampling, the worker samples for ever: no event leads out of the
/// sampling phase.
pub proof fn law_sampling_never_ends(state: SamplerState, event: SamplerEvent)
    requires
        phase_of(state) == SamplerPhase::Sampling,
    ensures
        phase_of(next_state(state, event)) == SamplerPhase::Sampling,
{
}

/// A batch that the receiver did not take has the worker go on exactly as a
/// delivered one.
pub proof fn law_failed_delivery_is_not_fatal(state: SamplerState)
    ensures
        next_state(state, SamplerEvent::Sent { delivered: false }) == next_state(
            state,
            SamplerEvent::Sent { delivered: true },
        ),
{
}

/// A worker that has ended stays so.
pub proof fn law_terminated_is_final(event: SamplerEvent)
    ensures
        next_state(SamplerState::Terminated, event) == SamplerState::Terminated,
{
}

/// In every run of a worker from its start, the startup batch is sent before
/// any pass: a worker that is sampling after some events was sending the
/// startup batch after fewer of them.
pub proof fn law_startup_precedes_passes(events: Seq<SamplerEvent>)
    requires
        phase_of(state_after(SamplerState::Connecting, events)) == SamplerPhase::Sampling,
    ensures
        exists|k: int|
            0 <= k < events.len() && state_after(
                SamplerState::Connecting,
                #[trigger] events.take(k),
            ) == SamplerState::Announcing,
{
    let k = lemma_announced_before_sampling(events);
}

/// The number of events after which a worker that is sampling was sending
/// the startup batch.
proof fn lemma_announced_before_sampling(events: Seq<SamplerEvent>) -> (k: int)
    requires
        phase_of(state_after(SamplerState::Connecting, events)) == SamplerPhase::Sampling,
    ensures
        0 <= k < events.len(),
        state_after(SamplerState::Connecting, events.take(k)) == SamplerState::Announcing,
    decreases events.len(),
{
    let shorter = events.drop_last();
    assert(events.take(events.len() - 1) == shorter);
    if state_after(SamplerState::Connecting, shorter) == SamplerState::Announcing {
        events.len() - 1
    } else {
        let k = lemma_announced_before_sampling(shorter);
        assert(shorter.take(k) == events.take(k));
        k
    }
}

} // verus!
