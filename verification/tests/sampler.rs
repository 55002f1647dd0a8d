use telemetry_sampler::apps::{process_count, ProcessListError};
use telemetry_sampler::get_apps_running;
use telemetry_sampler::gpu::{GpuReadings, MemoryReading};
use telemetry_sampler::row::{FieldValue, QueryOutcome, Row};
use telemetry_sampler::sampler::{
    forwardable, sample_pass, sampler_start, sampler_step, startup_batch, SamplerAction,
    SamplerEvent, SamplerState,
};
use telemetry_sampler::{Measurement, Quotient};

fn rows_of(name: &str, values: Vec<FieldValue>) -> QueryOutcome {
    let mut rows = Vec::new();
    for value in values {
        let mut row = Row::new();
        row.insert(name.to_string(), value);
        rows.push(row);
    }
    QueryOutcome::Rows(rows)
}

fn thermal() -> QueryOutcome {
    rows_of(
        "Temperature",
        vec![FieldValue::UI4(296), FieldValue::UI4(286), FieldValue::UI4(0)],
    )
}

fn memory() -> QueryOutcome {
    rows_of("AvailableBytes", vec![FieldValue::UI8(4096)])
}

fn total_memory() -> QueryOutcome {
    rows_of("TotalPhysicalMemory", vec![FieldValue::UI8(8192)])
}

fn load() -> QueryOutcome {
    rows_of("LoadPercentage", vec![FieldValue::UI2(25), FieldValue::UI2(75)])
}

const NO_GPU: GpuReadings = GpuReadings { memory: None, utilization: None, temperature: None };

const GPU: GpuReadings = GpuReadings {
    memory: Some(MemoryReading { used: 2048, total: 4096 }),
    utilization: Some(50),
    temperature: Some(60),
};

// ----- what is sent -----

#[test]
fn forwardable_drops_nan_and_keeps_order() {
    let results = vec![
        Measurement::NaN,
        Measurement::Temperature(1),
        Measurement::NaN,
        Measurement::NaN,
        Measurement::Network("OK".to_string()),
        Measurement::Temperature(1),
        Measurement::NaN,
    ];
    assert_eq!(
        forwardable(results),
        vec![
            Measurement::Temperature(1),
            Measurement::Network("OK".to_string()),
            Measurement::Temperature(1),
        ]
    );
    assert_eq!(forwardable(Vec::new()), Vec::new());
    assert_eq!(forwardable(vec![Measurement::NaN, Measurement::NaN]), Vec::new());
    assert_eq!(forwardable(vec![Measurement::GpuUtil(3)]), vec![Measurement::GpuUtil(3)]);
}

#[test]
fn startup_batch_is_total_memory_then_total_vram() {
    assert_eq!(
        startup_batch(&total_memory(), Some(MemoryReading { used: 2048, total: 4096 })),
        vec![
            Measurement::TotalMemory(Quotient { num: 8192, den: 1024 }),
            Measurement::VramTotal(4),
        ]
    );
}

#[test]
fn startup_batch_leaves_out_what_is_unavailable() {
    assert_eq!(
        startup_batch(&total_memory(), None),
        vec![Measurement::TotalMemory(Quotient { num: 8192, den: 1024 })]
    );
    assert_eq!(
        startup_batch(&QueryOutcome::Failed, Some(MemoryReading { used: 0, total: 1024 })),
        vec![Measurement::VramTotal(1)]
    );
    assert_eq!(startup_batch(&QueryOutcome::Failed, None), Vec::new());
}

#[test]
fn pass_runs_the_extractors_in_order() {
    assert_eq!(
        sample_pass(&thermal(), &thermal(), &memory(), &load(), &GPU),
        vec![
            Measurement::AvgTemperature(18),
            Measurement::Temperature(23),
            Measurement::Memory(Quotient { num: 4096, den: 1024 }),
            Measurement::CpuUtil(Quotient { num: 100, den: 2 }),
            Measurement::VramUsed(2),
            Measurement::GpuUtil(50),
            Measurement::GpuTemp(60),
        ]
    );
}

#[test]
fn pass_without_gpu_omits_the_gpu_metrics() {
    assert_eq!(
        sample_pass(&thermal(), &thermal(), &memory(), &load(), &NO_GPU),
        vec![
            Measurement::AvgTemperature(18),
            Measurement::Temperature(23),
            Measurement::Memory(Quotient { num: 4096, den: 1024 }),
            Measurement::CpuUtil(Quotient { num: 100, den: 2 }),
        ]
    );
}

#[test]
fn pass_never_forwards_nan() {
    let failed = QueryOutcome::Failed;
    assert_eq!(sample_pass(&failed, &failed, &failed, &failed, &NO_GPU), Vec::new());
    let empty = QueryOutcome::Rows(Vec::new());
    assert_eq!(
        sample_pass(&empty, &empty, &empty, &empty, &NO_GPU),
        vec![Measurement::AvgTemperature(0), Measurement::Temperature(0)]
    );
    let partial = GpuReadings { memory: None, utilization: Some(9), temperature: None };
    let batch = sample_pass(&failed, &thermal(), &failed, &load(), &partial);
    assert_eq!(
        batch,
        vec![
            Measurement::Temperature(23),
            Measurement::CpuUtil(Quotient { num: 100, den: 2 }),
            Measurement::GpuUtil(9),
        ]
    );
    assert!(batch.iter().all(|m| !m.is_nan()));
}

// ----- the worker -----

/// Runs a worker for a bounded number of passes with an interval of no
/// length, and returns what it sent, in order.
fn run_worker(connects: bool, passes: usize, delivered: bool) -> Vec<Measurement> {
    let mut sent = Vec::new();
    let mut passes_left = passes;
    let (mut state, mut action) = sampler_start();
    loop {
        let event = match action {
            SamplerAction::Connect => {
                if connects {
                    SamplerEvent::Connected
                } else {
                    SamplerEvent::ConnectFailed
                }
            }
            SamplerAction::SendStartup => {
                sent.extend(startup_batch(&total_memory(), GPU.memory));
                SamplerEvent::Sent { delivered }
            }
            SamplerAction::SendPass => {
                if passes_left == 0 {
                    return sent;
                }
                passes_left -= 1;
                sent.extend(sample_pass(&thermal(), &thermal(), &memory(), &load(), &GPU));
                SamplerEvent::Sent { delivered }
            }
            SamplerAction::Sleep => SamplerEvent::Woke,
            SamplerAction::Terminate => return sent,
        };
        let next = sampler_step(state, event);
        state = next.0;
        action = next.1;
    }
}

#[test]
fn worker_sends_startup_measurements_first() {
    let sent = run_worker(true, 3, true);
    assert!(sent.len() >= 2);
    assert_eq!(sent[0], Measurement::TotalMemory(Quotient { num: 8192, den: 1024 }));
    assert_eq!(sent[1], Measurement::VramTotal(4));
    assert_eq!(sent.len(), 2 + 3 * 7);
    assert_eq!(sent[2], Measurement::AvgTemperature(18));
    assert_eq!(sent[9], Measurement::AvgTemperature(18));
    for m in &sent[2..] {
        assert!(!matches!(m, Measurement::TotalMemory(_) | Measurement::VramTotal(_)));
    }
    let none = run_worker(true, 0, true);
    assert_eq!(none.len(), 2);
}

#[test]
fn worker_goes_on_when_the_receiver_is_gone() {
    assert_eq!(run_worker(true, 4, false), run_worker(true, 4, true));
}

#[test]
fn worker_without_connection_sends_nothing() {
    assert_eq!(run_worker(false, 5, true), Vec::new());
}

#[test]
fn sampler_steps_one_by_one() {
    assert_eq!(sampler_start(), (SamplerState::Connecting, SamplerAction::Connect));
    assert_eq!(
        sampler_step(SamplerState::Connecting, SamplerEvent::Connected),
        (SamplerState::Announcing, SamplerAction::SendStartup)
    );
    assert_eq!(
        sampler_step(SamplerState::Connecting, SamplerEvent::ConnectFailed),
        (SamplerState::Terminated, SamplerAction::Terminate)
    );
    assert_eq!(
        sampler_step(SamplerState::Announcing, SamplerEvent::Sent { delivered: true }),
        (SamplerState::Passing, SamplerAction::SendPass)
    );
    assert_eq!(
        sampler_step(SamplerState::Passing, SamplerEvent::Sent { delivered: false }),
        (SamplerState::Sleeping, SamplerAction::Sleep)
    );
    assert_eq!(
        sampler_step(SamplerState::Sleeping, SamplerEvent::Woke),
        (SamplerState::Passing, SamplerAction::SendPass)
    );
}

#[test]
fn unexpected_sampler_events_change_nothing() {
    assert_eq!(
        sampler_step(SamplerState::Connecting, SamplerEvent::Woke),
        (SamplerState::Connecting, SamplerAction::Connect)
    );
    assert_eq!(
        sampler_step(SamplerState::Sleeping, SamplerEvent::ConnectFailed),
        (SamplerState::Sleeping, SamplerAction::Sleep)
    );
    assert_eq!(
        sampler_step(SamplerState::Passing, SamplerEvent::ConnectFailed),
        (SamplerState::Passing, SamplerAction::SendPass)
    );
    for event in [
        SamplerEvent::Connected,
        SamplerEvent::ConnectFailed,
        SamplerEvent::Sent { delivered: true },
        SamplerEvent::Woke,
    ] {
        assert_eq!(
            sampler_step(SamplerState::Terminated, event),
            (SamplerState::Terminated, SamplerAction::Terminate)
        );
    }
}

// ----- applications -----

#[test]
fn failed_enumeration_is_an_error() {
    let result = get_apps_running(None);
    assert_eq!(result.unwrap_err(), ProcessListError);
    assert_eq!(ProcessListError.message(), "failed to get processes");
}

#[test]
fn enumeration_lists_no_application() {
    assert!(get_apps_running(Some(0)).unwrap().is_empty());
    assert!(get_apps_running(Some(4096)).unwrap().is_empty());
    assert_eq!(process_count(4096), 1024);
    assert_eq!(process_count(7), 1);
    assert_eq!(process_count(0), 0);
}
