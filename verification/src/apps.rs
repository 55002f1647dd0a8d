//! The applications running on the machine.

use vstd::prelude::*;

verus! {

/// A running application.
#[derive(Debug)]
pub struct Application {
    name: String,
    window_name: String,
    id: String,
}

/// The processes of the machine could not be enumerated.
#[derive(Clone, Copy, Debug, PartialEq, Eq, Structural)]
pub struct ProcessListError;

impl ProcessListError {
    /// The error in words.
    pub fn message(&self) -> (r: String)
        ensures
            r@ == "failed to get processes"@,
    {
        "failed to get processes".to_owned()
    }
}

/// Bytes that one process identifier takes in an enumeration.
pub const BYTES_PER_PROCESS_ID: u32 = 4;

/// How many process identifiers an enumeration of `bytes` bytes holds.
pub fn process_count(bytes: u32) -> (r: u32)
    ensures
        r == bytes / BYTES_PER_PROCESS_ID,
{
    bytes / BYTES_PER_PROCESS_ID
}

/// The applications that run, given how the enumeration of the processes
/// went: the number of bytes it filled, or `None` where it failed.
///
/// A failed enumeration is an error. No application is identified from the
/// process identifiers yet, so the list is empty otherwise.
pub fn get_apps_running(enumeration: Option<u32>) -> (r: Result<
    Vec<Application>,
    ProcessListError,
>)
    ensures
        enumeration is None <==> r is Err,
        r matches Ok(apps) ==> apps@.len() == 0,
{
    match enumeration {
        None => Err(ProcessListError),
        Some(bytes) => {
            let _count = process_count(bytes);
            Ok(Vec::new())
        },
    }
}

} // verus!
