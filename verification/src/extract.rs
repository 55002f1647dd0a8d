//! Metric extractors: each decodes the outcome of one fixed instrumentation
//! query into a [`Measurement`], and yields [`Measurement::NaN`] where the
//! data is missing or malformed.

use vstd::prelude::*;
use crate::measurement::Measurement;
use crate::quantity::{Quotient, BYTES_PER_KIB};
use crate::row::{FieldValue, QueryOutcome, Row};

verus! {

/// The query whose rows are the thermal zones.
pub const THERMAL_ZONE_QUERY: &'static str =
    "SELECT Temperature FROM Win32_PerfFormattedData_Counters_ThermalZoneInformation";

/// The query whose rows are the processors.
pub const PROCESSOR_LOAD_QUERY: &'static str = "SELECT LoadPercentage FROM Win32_Processor";

/// The query for the available physical memory.
pub const AVAILABLE_MEMORY_QUERY: &'static str =
    "SELECT AvailableBytes FROM Win32_PerfFormattedData_PerfOS_Memory";

/// The query for the installed physical memory.
pub const TOTAL_MEMORY_QUERY: &'static str =
    "SELECT TotalPhysicalMemory FROM Win32_ComputerSystem";

/// The query for the network status.
pub const NETWORK_STATUS_QUERY: &'static str = "SELECT Status FROM Win32_NetworkConnection";

/// The query for the display refresh rate.
pub const REFRESH_RATE_QUERY: &'static str =
    "SELECT CurrentRefreshRate FROM Win32_VideoController";

/// Zero degrees Celsius, in Kelvin as the sensors count it.
pub const KELVIN_OFFSET: u32 = 273;

/// The largest Kelvin reading that is taken for a temperature.
pub const MAX_KELVIN: u32 = 0x7fff_ffff;

/// The largest Celsius value that a zone can have.
pub const MAX_CELSIUS: u32 = MAX_KELVIN - KELVIN_OFFSET;

// ----- thermal zones -----

/// The Celsius value of a thermal zone: its `Temperature` field, an unsigned
/// 32-bit Kelvin reading no larger than `MAX_KELVIN`, less 273. A row without
/// such a field has no value.
pub open spec fn zone_celsius(row: Row) -> Option<int> {
    match row.field("Temperature"@) {
        Some(FieldValue::UI4(kelvin)) => if kelvin <= MAX_KELVIN {
            Some(kelvin - KELVIN_OFFSET)
        } else {
            None
        },
        _ => None,
    }
}

/// A zone counts towards the mean when its Celsius value is strictly positive.
pub open spec fn zone_counts(row: Row) -> bool {
    zone_celsius(row) matches Some(c) && c > 0
}

/// How many zones count towards the mean.
pub open spec fn counted_zones(rows: Seq<Row>) -> nat
    decreases rows.len(),
{
    if rows.len() == 0 {
        0
    } else {
        counted_zones(rows.drop_last()) + if zone_counts(rows.last()) {
            1nat
        } else {
            0nat
        }
    }
}

/// The sum of the Celsius values of the zones that count.
pub open spec fn counted_celsius(rows: Seq<Row>) -> int
    decreases rows.len(),
{
    if rows.len() == 0 {
        0
    } else {
        counted_celsius(rows.drop_last()) + if zone_counts(rows.last()) {
            zone_celsius(rows.last())->0
        } else {
            0
        }
    }
}

/// The mean of the zones that count, truncated; zero when none counts.
pub open spec fn mean_celsius(rows: Seq<Row>) -> int {
    if counted_zones(rows) == 0 {
        0
    } else {
        counted_celsius(rows) / (counted_zones(rows) as int)
    }
}

/// The highest Celsius value among the zones, and zero when no zone lies
/// above zero.
pub open spec fn peak_celsius(rows: Seq<Row>) -> int
    decreases rows.len(),
{
    if rows.len() == 0 {
        0
    } else {
        let rest = peak_celsius(rows.drop_last());
        match zone_celsius(rows.last()) {
            Some(c) => if c > rest {
                c
            } else {
                rest
            },
            None => rest,
        }
    }
}

/// `peak` is the highest Celsius value among the zones, or zero when no zone
/// lies above zero.
pub open spec fn is_peak_celsius(rows: Seq<Row>, peak: int) -> bool {
    &&& 0 <= peak
    &&& forall|i: int|
        0 <= i < rows.len() ==> (#[trigger] zone_celsius(rows[i]) matches Some(c) ==> c <= peak)
    &&& peak == 0 || exists|i: int|
        0 <= i < rows.len() && #[trigger] zone_celsius(rows[i]) == Some(peak)
}

/// What [`get_cpu_temp`] returns.
pub open spec fn cpu_temp_of(outcome: QueryOutcome) -> Measurement {
    match outcome {
        QueryOutcome::Failed => Measurement::NaN,
        QueryOutcome::Rows(rows) => Measurement::AvgTemperature(mean_celsius(rows@) as i32),
    }
}

/// What [`get_cpu_temp_max`] returns.
pub open spec fn cpu_temp_max_of(outcome: QueryOutcome) -> Measurement {
    match outcome {
        QueryOutcome::Failed => Measurement::NaN,
        QueryOutcome::Rows(rows) => Measurement::Temperature(peak_celsius(rows@) as i32),
    }
}

/// [`peak_celsius`] is the peak: no zone lies above it, and it is zero or
/// the value of a zone.
pub proof fn lemma_peak_celsius_is_peak(rows: Seq<Row>)
    ensures
        is_peak_celsius(rows, peak_celsius(rows)),
        0 <= peak_celsius(rows) <= MAX_CELSIUS,
    decreases rows.len(),
{
    if rows.len() > 0 {
        let rest = rows.drop_last();
        let last = rows.len() - 1;
        lemma_peak_celsius_is_peak(rest);
        let peak = peak_celsius(rows);
        assert forall|i: int| 0 <= i < rows.len() implies (#[trigger] zone_celsius(
            rows[i],
        ) matches Some(c) ==> c <= peak) by {
            if i < last {
                assert(rows[i] == rest[i]);
            }
        }
        if peak != 0 {
            if peak == peak_celsius(rest) {
                let w = choose|i: int|
                    0 <= i < rest.len() && #[trigger] zone_celsius(rest[i]) == Some(peak);
                assert(rows[w] == rest[w]);
            } else {
                assert(zone_celsius(rows[last]) == Some(peak));
            }
        }
    }
}

/// The mean of the zones lies between zero and the largest Celsius value.
pub proof fn law_mean_celsius_fits(rows: Seq<Row>)
    ensures
        0 <= mean_celsius(rows) <= MAX_CELSIUS,
{
    lemma_counted_celsius_bound(rows);
    if counted_zones(rows) > 0 {
        lemma_mean_bound(
            counted_celsius(rows),
            counted_zones(rows) as int,
            MAX_CELSIUS as int,
        );
    }
}

proof fn lemma_mean_bound(total: int, count: int, bound: int)
    by (nonlinear_arith)
    requires
        0 <= total <= count * bound,
        0 < count,
    ensures
        0 <= total / count <= bound,
{
}

proof fn lemma_counted_celsius_bound(rows: Seq<Row>)
    ensures
        0 <= counted_celsius(rows) <= counted_zones(rows) * MAX_CELSIUS,
    decreases rows.len(),
{
    if rows.len() > 0 {
        lemma_counted_celsius_bound(rows.drop_last());
        let n = counted_zones(rows.drop_last());
        assert((n + 1) * MAX_CELSIUS == n * MAX_CELSIUS + MAX_CELSIUS) by (nonlinear_arith);
    }
}

/// The Celsius value of one zone.
fn zone_reading(row: &Row) -> (r: Option<u32>)
    ensures
        match r {
            Some(c) => zone_celsius(*row) == Some(c as int),
            None => zone_celsius(*row) is None || zone_celsius(*row)->0 < 0,
        },
        r matches Some(c) ==> c <= MAX_CELSIUS,
{
    match row.get("Temperature") {
        Some(FieldValue::UI4(kelvin)) => {
            if *kelvin <= MAX_KELVIN && *kelvin >= KELVIN_OFFSET {
                Some(*kelvin - KELVIN_OFFSET)
            } else {
                None
            }
        },
        _ => None,
    }
}

/// The temperature of the machine: the mean over the thermal zones whose
/// value lies above zero degrees Celsius.
///
/// A failed query gives `NaN`. Zones without a usable reading, and zones at
/// or below zero, are left out; when none is left the mean is reported as
/// zero.
pub fn get_cpu_temp(outcome: &QueryOutcome) -> (r: Measurement)
    ensures
        r == cpu_temp_of(*outcome),
        *outcome matches QueryOutcome::Rows(rows) ==> r matches Measurement::AvgTemperature(mean)
            && mean == mean_celsius(rows@),
{
    let rows = match outcome {
        QueryOutcome::Failed => {
            return Measurement::NaN;
        },
        QueryOutcome::Rows(rows) => rows,
    };
    let mut total: u128 = 0;
    let mut count: u64 = 0;
    let mut i: usize = 0;
    assert(rows@.take(0) =~= Seq::<Row>::empty());
    while i < rows.len()
        invariant
            i <= rows.len(),
            count <= i,
            count == counted_zones(rows@.take(i as int)),
            total == counted_celsius(rows@.take(i as int)),
            total <= count * MAX_CELSIUS,
        decreases rows.len() - i,
    {
        assert(rows@.take(i + 1).drop_last() =~= rows@.take(i as int));
        assert((count + 1) * MAX_CELSIUS == count * MAX_CELSIUS + MAX_CELSIUS)
            by (nonlinear_arith);
        assert(count * MAX_CELSIUS <= u64::MAX * MAX_CELSIUS) by (nonlinear_arith)
            requires
                count <= u64::MAX,
        ;
        match zone_reading(&rows[i]) {
            Some(c) => {
                if c > 0 {
                    total = total + c as u128;
                    count = count + 1;
                }
            },
            None => {},
        }
        i = i + 1;
    }
    assert(rows@.take(i as int) =~= rows@);
    if count > 0 {
        proof {
            lemma_mean_bound(total as int, count as int, MAX_CELSIUS as int);
        }
        let mean: u128 = total / (count as u128);
        Measurement::AvgTemperature(mean as i32)
    } else {
        Measurement::AvgTemperature(0)
    }
}

/// The peak temperature of the machine: the highest Celsius value over all
/// thermal zones, and zero when no zone lies above zero.
///
/// A failed query gives `NaN`.
pub fn get_cpu_temp_max(outcome: &QueryOutcome) -> (r: Measurement)
    ensures
        r == cpu_temp_max_of(*outcome),
        *outcome matches QueryOutcome::Rows(rows) ==> r matches Measurement::Temperature(peak)
            && peak == peak_celsius(rows@) && is_peak_celsius(rows@, peak as int),
{
    let rows = match outcome {
        QueryOutcome::Failed => {
            return Measurement::NaN;
        },
        QueryOutcome::Rows(rows) => rows,
    };
    let mut peak: u32 = 0;
    let mut i: usize = 0;
    assert(rows@.take(0) =~= Seq::<Row>::empty());
    while i < rows.len()
        invariant
            i <= rows.len(),
            peak <= MAX_CELSIUS,
            peak == peak_celsius(rows@.take(i as int)),
        decreases rows.len() - i,
    {
        assert(rows@.take(i + 1).drop_last() =~= rows@.take(i as int));
        match zone_reading(&rows[i]) {
            Some(c) => {
                if c > peak {
                    peak = c;
                }
            },
            None => {},
        }
        i = i + 1;
    }
    assert(rows@.take(i as int) =~= rows@);
    proof {
        lemma_peak_celsius_is_peak(rows@);
    }
    Measurement::Temperature(peak as i32)
}

// ----- processors -----

/// The load of a processor: its `LoadPercentage` field, an unsigned 16-bit
/// integer. A row without such a field has no load.
pub open spec fn processor_load(row: Row) -> Option<u16> {
    match row.field("LoadPercentage"@) {
        Some(FieldValue::UI2(load)) => Some(load),
        _ => None,
    }
}

/// How many processors report a load.
pub open spec fn loaded_processors(rows: Seq<Row>) -> nat
    decreases rows.len(),
{
    if rows.len() == 0 {
        0
    } else {
        loaded_processors(rows.drop_last()) + if processor_load(rows.last()) is Some {
            1nat
        } else {
            0nat
        }
    }
}

/// The sum of the loads that the processors report.
pub open spec fn total_load(rows: Seq<Row>) -> nat
    decreases rows.len(),
{
    if rows.len() == 0 {
        0
    } else {
        total_load(rows.drop_last()) + match processor_load(rows.last()) {
            Some(load) => load as nat,
            None => 0nat,
        }
    }
}

/// What [`get_cpu_util`] returns.
pub open spec fn cpu_util_of(outcome: QueryOutcome) -> Measurement {
    match outcome {
        QueryOutcome::Failed => Measurement::NaN,
        QueryOutcome::Rows(rows) => if loaded_processors(rows@) == 0 {
            Measurement::NaN
        } else {
            Measurement::CpuUtil(
                Quotient { num: total_load(rows@) as u128, den: loaded_processors(rows@) as u64 },
            )
        },
    }
}

/// The processor load: the reported loads summed, over the number of
/// processors that report one.
///
/// A failed query gives `NaN`, and so does a result in which no processor
/// reports a load: nothing is divided by zero.
pub fn get_cpu_util(outcome: &QueryOutcome) -> (r: Measurement)
    ensures
        r == cpu_util_of(*outcome),
        r.wf(),
        r matches Measurement::CpuUtil(mean) ==> *outcome matches QueryOutcome::Rows(rows)
            && mean.num == total_load(rows@) && mean.den == loaded_processors(rows@),
{
    let rows = match outcome {
        QueryOutcome::Failed => {
            return Measurement::NaN;
        },
        QueryOutcome::Rows(rows) => rows,
    };
    let mut total: u128 = 0;
    let mut count: u64 = 0;
    let mut i: usize = 0;
    assert(rows@.take(0) =~= Seq::<Row>::empty());
    while i < rows.len()
        invariant
            i <= rows.len(),
            count <= i,
            count == loaded_processors(rows@.take(i as int)),
            total == total_load(rows@.take(i as int)),
            total <= count * 0xffff,
        decreases rows.len() - i,
    {
        assert(rows@.take(i + 1).drop_last() =~= rows@.take(i as int));
        match rows[i].get("LoadPercentage") {
            Some(FieldValue::UI2(load)) => {
                total = total + *load as u128;
                count = count + 1;
            },
            _ => {},
        }
        i = i + 1;
    }
    assert(rows@.take(i as int) =~= rows@);
    if count > 0 {
        Measurement::CpuUtil(Quotient { num: total, den: count })
    } else {
        Measurement::NaN
    }
}

// ----- single readings -----

/// The field `name` of the first row, where the query returned a row that
/// has it.
pub open spec fn first_field(outcome: QueryOutcome, name: Seq<char>) -> Option<FieldValue> {
    match outcome {
        QueryOutcome::Failed => None,
        QueryOutcome::Rows(rows) => if rows@.len() == 0 {
            None
        } else {
            rows@[0].field(name)
        },
    }
}

fn first_row_field<'a>(outcome: &'a QueryOutcome, name: &str) -> (r: Option<&'a FieldValue>)
    ensures
        match r {
            Some(v) => first_field(*outcome, name@) == Some(*v),
            None => first_field(*outcome, name@) is None,
        },
{
    match outcome {
        QueryOutcome::Failed => None,
        QueryOutcome::Rows(rows) => {
            if rows.len() == 0 {
                None
            } else {
                rows[0].get(name)
            }
        },
    }
}

/// A byte count as kibibytes: the bytes over 1024.
pub open spec fn kib_of_bytes(bytes: u64) -> Quotient {
    Quotient { num: bytes as u128, den: BYTES_PER_KIB }
}

/// What [`get_available_memory`] returns.
pub open spec fn available_memory_of(outcome: QueryOutcome) -> Measurement {
    match first_field(outcome, "AvailableBytes"@) {
        Some(FieldValue::UI8(bytes)) => Measurement::Memory(kib_of_bytes(bytes)),
        _ => Measurement::NaN,
    }
}

/// What [`get_total_memory`] returns.
pub open spec fn total_memory_of(outcome: QueryOutcome) -> Measurement {
    match first_field(outcome, "TotalPhysicalMemory"@) {
        Some(FieldValue::UI8(bytes)) => Measurement::TotalMemory(kib_of_bytes(bytes)),
        _ => Measurement::NaN,
    }
}

/// What [`get_network_connection`] returns.
pub open spec fn network_connection_of(outcome: QueryOutcome) -> Measurement {
    match first_field(outcome, "Status"@) {
        Some(FieldValue::String(status)) => Measurement::Network(status),
        _ => Measurement::NaN,
    }
}

/// What [`get_frame_rate`] returns.
pub open spec fn frame_rate_of(outcome: QueryOutcome) -> Measurement {
    match first_field(outcome, "CurrentRefreshRate"@) {
        Some(FieldValue::UI4(rate)) => Measurement::FrameRate(
            Quotient { num: rate as u128, den: 1 },
        ),
        _ => Measurement::NaN,
    }
}

/// The available physical memory in kibibytes: the `AvailableBytes` field of
/// the first row, an unsigned 64-bit byte count, over 1024.
///
/// A failed query, an empty result, and a missing or differently typed field
/// give `NaN`.
pub fn get_available_memory(outcome: &QueryOutcome) -> (r: Measurement)
    ensures
        r == available_memory_of(*outcome),
        r.wf(),
{
    match first_row_field(outcome, "AvailableBytes") {
        Some(FieldValue::UI8(bytes)) => Measurement::Memory(
            Quotient { num: *bytes as u128, den: BYTES_PER_KIB },
        ),
        _ => Measurement::NaN,
    }
}

/// The installed physical memory in kibibytes: the `TotalPhysicalMemory`
/// field of the first row, an unsigned 64-bit byte count, over 1024.
///
/// A failed query, an empty result, and a missing or differently typed field
/// give `NaN`.
pub fn get_total_memory(outcome: &QueryOutcome) -> (r: Measurement)
    ensures
        r == total_memory_of(*outcome),
        r.wf(),
{
    match first_row_field(outcome, "TotalPhysicalMemory") {
        Some(FieldValue::UI8(bytes)) => Measurement::TotalMemory(
            Quotient { num: *bytes as u128, den: BYTES_PER_KIB },
        ),
        _ => Measurement::NaN,
    }
}

/// The network status: the `Status` field of the first row, a string, passed
/// on as it is.
///
/// A failed query, an empty result, and a missing or differently typed field
/// give `NaN`.
pub fn get_network_connection(outcome: &QueryOutcome) -> (r: Measurement)
    ensures
        r == network_connection_of(*outcome),
{
    match first_row_field(outcome, "Status") {
        Some(FieldValue::String(status)) => Measurement::Network(status.clone()),
        _ => Measurement::NaN,
    }
}

/// The display refresh rate: the `CurrentRefreshRate` field of the first
/// row, an unsigned 32-bit integer.
///
/// A failed query, an empty result, and a missing or differently typed field
/// give `NaN`.
pub fn get_frame_rate(outcome: &QueryOutcome) -> (r: Measurement)
    ensures
        r == frame_rate_of(*outcome),
        r.wf(),
{
    match first_row_field(outcome, "CurrentRefreshRate") {
        Some(FieldValue::UI4(rate)) => Measurement::FrameRate(
            Quotient { num: *rate as u128, den: 1 },
        ),
        _ => Measurement::NaN,
    }
}

// ----- laws of the extractors -----

/// A thermal zone that reads `kelvin`, above 273 and no larger than
/// `MAX_KELVIN`, alone gives a mean and a peak of `kelvin` less 273.
pub proof fn law_zone_converts_kelvin(outcome: QueryOutcome, kelvin: u32)
    requires
        outcome matches QueryOutcome::Rows(rows) && rows@.len() == 1 && rows@[0].field(
            "Temperature"@,
        ) == Some(FieldValue::UI4(kelvin)),
        KELVIN_OFFSET < kelvin <= MAX_KELVIN,
    ensures
        cpu_temp_of(outcome) == Measurement::AvgTemperature((kelvin - KELVIN_OFFSET) as i32),
        cpu_temp_max_of(outcome) == Measurement::Temperature((kelvin - KELVIN_OFFSET) as i32),
{
    let rows = outcome->Rows_0@;
    let celsius = kelvin - KELVIN_OFFSET;
    assert(rows.last() == rows[0]);
    assert(zone_celsius(rows[0]) == Some(celsius));
    assert(rows.drop_last().len() == 0);
    reveal_with_fuel(counted_zones, 2);
    reveal_with_fuel(counted_celsius, 2);
    reveal_with_fuel(peak_celsius, 2);
    assert(zone_counts(rows.last()));
    assert(counted_zones(rows) == 1);
    assert(counted_celsius(rows) == celsius);
    assert(peak_celsius(rows) == celsius);
}

/// Processors that all report the same load give that load as their mean.
pub proof fn law_equal_loads_average_to_the_load(rows: Seq<Row>, load: u16)
    requires
        forall|i: int| 0 <= i < rows.len() ==> processor_load(#[trigger] rows[i]) == Some(load),
    ensures
        total_load(rows) == load * loaded_processors(rows),
        loaded_processors(rows) == rows.len(),
    decreases rows.len(),
{
    if rows.len() > 0 {
        let rest = rows.drop_last();
        assert forall|i: int| 0 <= i < rest.len() implies processor_load(#[trigger] rest[i])
            == Some(load) by {
            assert(rest[i] == rows[i]);
        }
        law_equal_loads_average_to_the_load(rest, load);
        assert(processor_load(rows[rows.len() - 1]) == Some(load));
        assert(load * (loaded_processors(rest) + 1) == load * loaded_processors(rest) + load)
            by (nonlinear_arith);
    } else {
        assert(load * 0 == 0) by (nonlinear_arith);
    }
}

/// A first row that holds the expected field in the expected type gives the
/// measurement of that field: bytes over 1024 as kibibytes, the refresh rate
/// as it is, the status as it is.
pub proof fn law_present_field_is_converted(outcome: QueryOutcome)
    ensures
        first_field(outcome, "AvailableBytes"@) matches Some(FieldValue::UI8(bytes))
            ==> available_memory_of(outcome) == Measurement::Memory(
            Quotient { num: bytes as u128, den: 1024 },
        ),
        first_field(outcome, "TotalPhysicalMemory"@) matches Some(FieldValue::UI8(bytes))
            ==> total_memory_of(outcome) == Measurement::TotalMemory(
            Quotient { num: bytes as u128, den: 1024 },
        ),
        first_field(outcome, "CurrentRefreshRate"@) matches Some(FieldValue::UI4(rate))
            ==> frame_rate_of(outcome) == Measurement::FrameRate(
            Quotient { num: rate as u128, den: 1 },
        ),
        first_field(outcome, "Status"@) matches Some(FieldValue::String(status))
            ==> network_connection_of(outcome) == Measurement::Network(status),
{
}

/// A failed query gives `NaN`, whatever the extractor.
pub proof fn law_failed_query_is_nan()
    ensures
        cpu_temp_of(QueryOutcome::Failed) is NaN,
        cpu_temp_max_of(QueryOutcome::Failed) is NaN,
        cpu_util_of(QueryOutcome::Failed) is NaN,
        available_memory_of(QueryOutcome::Failed) is NaN,
        total_memory_of(QueryOutcome::Failed) is NaN,
        network_connection_of(QueryOutcome::Failed) is NaN,
        frame_rate_of(QueryOutcome::Failed) is NaN,
{
}

/// An empty result gives `NaN` from every extractor but those of the
/// thermal zones.
pub proof fn law_empty_result_is_nan(outcome: QueryOutcome)
    requires
        outcome matches QueryOutcome::Rows(rows) && rows@.len() == 0,
    ensures
        cpu_util_of(outcome) is NaN,
        available_memory_of(outcome) is NaN,
        total_memory_of(outcome) is NaN,
        network_connection_of(outcome) is NaN,
        frame_rate_of(outcome) is NaN,
{
}

/// Thermal zones of which none counts, an empty result among them, give a
/// mean of zero; zones of which none lies above zero give a peak of zero.
pub proof fn law_no_zone_reads_zero(rows: Seq<Row>)
    ensures
        (forall|i: int| 0 <= i < rows.len() ==> !zone_counts(#[trigger] rows[i]))
            ==> mean_celsius(rows) == 0 && peak_celsius(rows) == 0,
    decreases rows.len(),
{
    if rows.len() > 0 && (forall|i: int| 0 <= i < rows.len() ==> !zone_counts(#[trigger] rows[i])) {
        let rest = rows.drop_last();
        assert forall|i: int| 0 <= i < rest.len() implies !zone_counts(#[trigger] rest[i]) by {
            assert(rest[i] == rows[i]);
        }
        law_no_zone_reads_zero(rest);
        assert(!zone_counts(rows[rows.len() - 1]));
    }
}

/// A first row whose field is absent or of another type gives `NaN`.
pub proof fn law_wrong_type_is_nan(outcome: QueryOutcome)
    ensures
        !(first_field(outcome, "AvailableBytes"@) matches Some(FieldValue::UI8(_)))
            ==> available_memory_of(outcome) is NaN,
        !(first_field(outcome, "TotalPhysicalMemory"@) matches Some(FieldValue::UI8(_)))
            ==> total_memory_of(outcome) is NaN,
        !(first_field(outcome, "CurrentRefreshRate"@) matches Some(FieldValue::UI4(_)))
            ==> frame_rate_of(outcome) is NaN,
        !(first_field(outcome, "Status"@) matches Some(FieldValue::String(_)))
            ==> network_connection_of(outcome) is NaN,
{
}

/// Processors of which none reports a load as an unsigned 16-bit integer
/// give `NaN`.
pub proof fn law_no_load_is_nan(outcome: QueryOutcome)
    requires
        outcome matches QueryOutcome::Rows(rows) && forall|i: int|
            0 <= i < rows@.len() ==> processor_load(#[trigger] rows@[i]) is None,
    ensures
        cpu_util_of(outcome) is NaN,
{
    lemma_no_load_counts_nothing(outcome->Rows_0@);
}

proof fn lemma_no_load_counts_nothing(rows: Seq<Row>)
    requires
        forall|i: int| 0 <= i < rows.len() ==> processor_load(#[trigger] rows[i]) is None,
    ensures
        loaded_processors(rows) == 0,
    decreases rows.len(),
{
    if rows.len() > 0 {
        let rest = rows.drop_last();
        assert forall|i: int| 0 <= i < rest.len() implies processor_load(#[trigger] rest[i])
            is None by {
            assert(rest[i] == rows[i]);
        }
        lemma_no_load_counts_nothing(rest);
        assert(processor_load(rows[rows.len() - 1]) is None);
    }
}

} // verus!
