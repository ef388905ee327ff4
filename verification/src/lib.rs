//! Verified core of a driver binding for Cambricon MLU devices and the CNNL library: the values
//! the driver reports, the decisions taken around each driver call, and the order of the calls
//! in compilations and benchmarks.
pub mod text;
pub mod mem_size;
pub mod version;
pub mod device;
pub mod context;
pub mod queue;
pub mod memory;
pub mod cnrtc;
pub mod cnnl;

pub use cnrtc::{CnrtcBinary, KernelFn};
pub use context::{Context, CurrentCtx, NoCtxError};
pub use device::{Device, InfoFmt};
pub use mem_size::MemSize;
pub use memory::{memcpy_d2d, memcpy_d2h, memcpy_h2d, DevByte, DevMemSpore};
pub use queue::Queue;
pub use version::Version;
