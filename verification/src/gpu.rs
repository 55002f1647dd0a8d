//! GPU metrics, read from a device of the GPU management library.
//!
//! Each extractor asks the device for one reading and converts it. The
//! conversion is a function of its own, so that it holds for every reading
//! that a device can give.

use vstd::prelude::*;
use crate::measurement::Measurement;
use crate::quantity::BYTES_PER_KIB;
use nvml_wrapper::enum_wrappers::device::TemperatureSensor;
use nvml_wrapper::{Device, Nvml};

verus! {

/// `nvml_wrapper::Nvml`, the loaded GPU management library. Nothing is known
/// of what it holds.
#[verifier::external_type_specification]
#[verifier::external_body]
pub struct ExNvml(Nvml);

/// `nvml_wrapper::Device`, the handle of one device of the library. Nothing
/// is known of what it holds.
#[verifier::external_type_specification]
#[verifier::external_body]
pub struct ExDevice<'nvml>(Device<'nvml>);

/// The memory of a device, in bytes.
#[derive(Clone, Copy, Debug, PartialEq, Eq, Structural)]
pub struct MemoryReading {
    pub used: u64,
    pub total: u64,
}

/// What one look at the device gave on a pass; `None` where it did not
/// answer, or where there is no device.
#[derive(Clone, Copy, Debug, PartialEq, Eq, Structural)]
pub struct GpuReadings {
    pub memory: Option<MemoryReading>,
    pub utilization: Option<u32>,
    pub temperature: Option<u32>,
}

// ----- the device -----

/// `Nvml::device_by_index`: the device at `index`, or `None` where the
/// library returns an error. Which of the two comes depends on the machine.
#[verifier::external_body]
fn device_by_index<'nvml>(library: &'nvml Nvml, index: u32) -> (r: Option<Device<'nvml>>) {
    library.device_by_index(index).ok()
}

/// `Device::memory_info`: the used and total bytes that the device reports,
/// or `None` where the call returns an error. Nothing is claimed of the
/// numbers.
#[verifier::external_body]
fn device_memory(device: &Device) -> (r: Option<MemoryReading>) {
    match device.memory_info() {
        Ok(info) => Some(MemoryReading { used: info.used, total: info.total }),
        Err(_) => None,
    }
}

/// `Device::utilization_rates`: the `gpu` rate that the device reports, or
/// `None` where the call returns an error. Nothing is claimed of the number.
#[verifier::external_body]
fn device_utilization(device: &Device) -> (r: Option<u32>) {
    match device.utilization_rates() {
        Ok(rates) => Some(rates.gpu),
        Err(_) => None,
    }
}

/// `Device::temperature` for the sensor of the GPU die: the degrees that the
/// device reports, or `None` where the call returns an error. Nothing is
/// claimed of the number.
#[verifier::external_body]
fn device_temperature(device: &Device) -> (r: Option<u32>) {
    device.temperature(TemperatureSensor::Gpu).ok()
}

/// The device at `index`, where the library is loaded and has one there.
///
/// Without a library there is no device, and none is asked for.
pub fn acquire_device<'nvml>(library: Option<&'nvml Nvml>, index: u32) -> (r: Option<
    Device<'nvml>,
>)
    ensures
        library is None ==> r is None,
{
    match library {
        Some(library) => device_by_index(library, index),
        None => None,
    }
}

/// The memory of the device, where there is one and it answers.
///
/// Without a device nothing is asked.
pub fn read_device_memory(device: Option<&Device>) -> (r: Option<MemoryReading>)
    ensures
        device is None ==> r is None,
{
    match device {
        Some(device) => device_memory(device),
        None => None,
    }
}

/// One look at the device for a pass: its memory, its utilisation and its
/// temperature, each where the device answers.
///
/// Without a device nothing is asked and every reading is `None`.
pub fn read_gpu(device: Option<&Device>) -> (r: GpuReadings)
    ensures
        device is None ==> r == (GpuReadings {
            memory: None,
            utilization: None,
            temperature: None,
        }),
{
    match device {
        Some(device) => GpuReadings {
            memory: device_memory(device),
            utilization: device_utilization(device),
            temperature: device_temperature(device),
        },
        None => GpuReadings { memory: None, utilization: None, temperature: None },
    }
}

// ----- conversions -----

/// Whole kibibytes in a byte count.
pub open spec fn whole_kib(bytes: u64) -> u64 {
    bytes / BYTES_PER_KIB
}

/// What [`used_vram_from`] returns.
pub open spec fn used_vram_of(reading: Option<MemoryReading>) -> Measurement {
    match reading {
        Some(memory) => Measurement::VramUsed(whole_kib(memory.used)),
        None => Measurement::NaN,
    }
}

/// What [`total_vram_from`] returns.
pub open spec fn total_vram_of(reading: Option<MemoryReading>) -> Measurement {
    match reading {
        Some(memory) => Measurement::VramTotal(whole_kib(memory.total)),
        None => Measurement::NaN,
    }
}

/// What [`gpu_util_from`] returns.
pub open spec fn gpu_util_of(reading: Option<u32>) -> Measurement {
    match reading {
        Some(percent) => Measurement::GpuUtil(percent),
        None => Measurement::NaN,
    }
}

/// What [`gpu_temp_from`] returns.
pub open spec fn gpu_temp_of(reading: Option<u32>) -> Measurement {
    match reading {
        Some(degrees) => Measurement::GpuTemp(degrees),
        None => Measurement::NaN,
    }
}

/// The device memory in use, in whole kibibytes; `NaN` without a reading.
pub fn used_vram_from(reading: Option<MemoryReading>) -> (r: Measurement)
    ensures
        r == used_vram_of(reading),
{
    match reading {
        Some(memory) => Measurement::VramUsed(memory.used / BYTES_PER_KIB),
        None => Measurement::NaN,
    }
}

/// The device memory installed, in whole kibibytes; `NaN` without a reading.
pub fn total_vram_from(reading: Option<MemoryReading>) -> (r: Measurement)
    ensures
        r == total_vram_of(reading),
{
    match reading {
        Some(memory) => Measurement::VramTotal(memory.total / BYTES_PER_KIB),
        None => Measurement::NaN,
    }
}

/// The GPU utilisation in percent, as read; `NaN` without a reading.
pub fn gpu_util_from(reading: Option<u32>) -> (r: Measurement)
    ensures
        r == gpu_util_of(reading),
{
    match reading {
        Some(percent) => Measurement::GpuUtil(percent),
        None => Measurement::NaN,
    }
}

/// The GPU temperature in degrees Celsius, as read; `NaN` without a reading.
pub fn gpu_temp_from(reading: Option<u32>) -> (r: Measurement)
    ensures
        r == gpu_temp_of(reading),
{
    match reading {
        Some(degrees) => Measurement::GpuTemp(degrees),
        None => Measurement::NaN,
    }
}

// ----- extractors -----

/// The device memory in use.
///
/// Without a device the result is `NaN` and nothing is asked. With one, the
/// result is [`used_vram_from`] of what the device answers.
pub fn get_used_vram(device: Option<&Device>) -> (r: Measurement)
    ensures
        device is None ==> r is NaN,
        exists|reading: Option<MemoryReading>| r == used_vram_of(reading),
{
    match device {
        Some(device) => used_vram_from(device_memory(device)),
        None => {
            assert(used_vram_of(None) is NaN);
            Measurement::NaN
        },
    }
}

/// The device memory installed.
///
/// Without a device the result is `NaN` and nothing is asked. With one, the
/// result is [`total_vram_from`] of what the device answers.
pub fn get_total_vram(device: Option<&Device>) -> (r: Measurement)
    ensures
        device is None ==> r is NaN,
        exists|reading: Option<MemoryReading>| r == total_vram_of(reading),
{
    match device {
        Some(device) => total_vram_from(device_memory(device)),
        None => {
            assert(total_vram_of(None) is NaN);
            Measurement::NaN
        },
    }
}

/// The GPU utilisation.
///
/// Without a device the result is `NaN` and nothing is asked. With one, the
/// result is [`gpu_util_from`] of what the device answers.
pub fn get_gpu_util(device: Option<&Device>) -> (r: Measurement)
    ensures
        device is None ==> r is NaN,
        exists|reading: Option<u32>| r == gpu_util_of(reading),
{
    match device {
        Some(device) => gpu_util_from(device_utilization(device)),
        None => {
            assert(gpu_util_of(None) is NaN);
            Measurement::NaN
        },
    }
}

/// The GPU temperature.
///
/// Without a device the result is `NaN` and nothing is asked. With one, the
/// result is [`gpu_temp_from`] of what the device answers.
pub fn get_gpu_temp(device: Option<&Device>) -> (r: Measurement)
    ensures
        device is None ==> r is NaN,
        exists|reading: Option<u32>| r == gpu_temp_of(reading),
{
    match device {
        Some(device) => gpu_temp_from(device_temperature(device)),
        None => {
            assert(gpu_temp_of(None) is NaN);
            Measurement::NaN
        },
    }
}

} // verus!
