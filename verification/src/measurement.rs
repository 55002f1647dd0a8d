//! The typed measurement that every extractor produces.

use vstd::prelude::*;
use vstd::std_specs::cmp::PartialEqSpecImpl;
use crate::quantity::Quotient;

verus! {

/// One sample of one metric, or [`Measurement::NaN`] where the sample could
/// not be produced this pass.
#[derive(Debug)]
pub enum Measurement {
    /// Peak temperature over all thermal zones, in degrees Celsius.
    Temperature(i32),
    /// Mean temperature over the qualifying thermal zones, in degrees Celsius.
    AvgTemperature(i32),
    /// Available physical memory, in kibibytes.
    Memory(Quotient),
    /// Total physical memory, in kibibytes.
    TotalMemory(Quotient),
    /// Processor load, averaged over the processors.
    CpuUtil(Quotient),
    /// Display refresh rate.
    FrameRate(Quotient),
    /// Network status, as reported.
    Network(String),
    /// Device memory in use, in kibibytes.
    VramUsed(u64),
    /// Device memory installed, in kibibytes.
    VramTotal(u64),
    /// GPU utilisation, in percent.
    GpuUtil(u32),
    /// GPU die temperature, in degrees Celsius.
    GpuTemp(u32),
    /// The sample is unavailable.
    NaN,
}

impl Measurement {
    /// Same variant and same payload; two strings are the same when they hold
    /// the same characters.
    pub open spec fn same(&self, other: &Measurement) -> bool {
        match (*self, *other) {
            (Measurement::Temperature(a), Measurement::Temperature(b)) => a == b,
            (Measurement::AvgTemperature(a), Measurement::AvgTemperature(b)) => a == b,
            (Measurement::Memory(a), Measurement::Memory(b)) => a == b,
            (Measurement::TotalMemory(a), Measurement::TotalMemory(b)) => a == b,
            (Measurement::CpuUtil(a), Measurement::CpuUtil(b)) => a == b,
            (Measurement::FrameRate(a), Measurement::FrameRate(b)) => a == b,
            (Measurement::Network(a), Measurement::Network(b)) => a@ == b@,
            (Measurement::VramUsed(a), Measurement::VramUsed(b)) => a == b,
            (Measurement::VramTotal(a), Measurement::VramTotal(b)) => a == b,
            (Measurement::GpuUtil(a), Measurement::GpuUtil(b)) => a == b,
            (Measurement::GpuTemp(a), Measurement::GpuTemp(b)) => a == b,
            (Measurement::NaN, Measurement::NaN) => true,
            _ => false,
        }
    }

    /// Every quotient that the measurement holds has a divisor other than
    /// zero.
    pub open spec fn wf(&self) -> bool {
        match *self {
            Measurement::Memory(q) => q.wf(),
            Measurement::TotalMemory(q) => q.wf(),
            Measurement::CpuUtil(q) => q.wf(),
            Measurement::FrameRate(q) => q.wf(),
            _ => true,
        }
    }

    /// Tells whether this is the failure sentinel.
    pub fn is_nan(&self) -> (r: bool)
        ensures
            r == (*self is NaN),
    {
        match self {
            Measurement::NaN => true,
            _ => false,
        }
    }
}

impl Clone for Measurement {
    fn clone(&self) -> (r: Self)
        ensures
            r == *self,
    {
        match self {
            Measurement::Temperature(v) => Measurement::Temperature(*v),
            Measurement::AvgTemperature(v) => Measurement::AvgTemperature(*v),
            Measurement::Memory(v) => Measurement::Memory(*v),
            Measurement::TotalMemory(v) => Measurement::TotalMemory(*v),
            Measurement::CpuUtil(v) => Measurement::CpuUtil(*v),
            Measurement::FrameRate(v) => Measurement::FrameRate(*v),
            Measurement::Network(s) => Measurement::Network(s.clone()),
            Measurement::VramUsed(v) => Measurement::VramUsed(*v),
            Measurement::VramTotal(v) => Measurement::VramTotal(*v),
            Measurement::GpuUtil(v) => Measurement::GpuUtil(*v),
            Measurement::GpuTemp(v) => Measurement::GpuTemp(*v),
            Measurement::NaN => Measurement::NaN,
        }
    }
}

impl PartialEq for Measurement {
    fn eq(&self, other: &Measurement) -> (r: bool)
    {
        match (self, other) {
            (Measurement::Temperature(a), Measurement::Temperature(b)) => *a == *b,
            (Measurement::AvgTemperature(a), Measurement::AvgTemperature(b)) => *a == *b,
            (Measurement::Memory(a), Measurement::Memory(b)) => *a == *b,
            (Measurement::TotalMemory(a), Measurement::TotalMemory(b)) => *a == *b,
            (Measurement::CpuUtil(a), Measurement::CpuUtil(b)) => *a == *b,
            (Measurement::FrameRate(a), Measurement::FrameRate(b)) => *a == *b,
            (Measurement::Network(a), Measurement::Network(b)) => *a == *b,
            (Measurement::VramUsed(a), Measurement::VramUsed(b)) => *a == *b,
            (Measurement::VramTotal(a), Measurement::VramTotal(b)) => *a == *b,
            (Measurement::GpuUtil(a), Measurement::GpuUtil(b)) => *a == *b,
            (Measurement::GpuTemp(a), Measurement::GpuTemp(b)) => *a == *b,
            (Measurement::NaN, Measurement::NaN) => true,
            _ => false,
        }
    }
}

impl PartialEqSpecImpl for Measurement {
    open spec fn obeys_eq_spec() -> bool {
        true
    }

    open spec fn eq_spec(&self, other: &Measurement) -> bool {
        self.same(other)
    }
}

} // verus!
