//! Sampling and normalisation of hardware telemetry: typed measurements,
//! defensive decoding of instrumentation query rows, GPU readings, and the
//! decisions of the background sampling loop.

pub mod apps;
pub mod connection;
pub mod extract;
pub mod gpu;
pub mod measurement;
pub mod quantity;
pub mod row;
pub mod sampler;

pub use apps::{get_apps_running, Application};
pub use extract::{
    get_available_memory, get_cpu_temp, get_cpu_temp_max, get_cpu_util, get_frame_rate,
    get_network_connection, get_total_memory,
};
pub use gpu::{get_gpu_temp, get_gpu_util, get_total_vram, get_used_vram};
pub use measurement::Measurement;
pub use quantity::{KiB_to_GiB, Quotient};
