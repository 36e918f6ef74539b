//! A verified core for a compute-kernel hardware abstraction layer: dispatch-grid
//! arithmetic, reflection-driven binding layouts, the argument-binding protocol,
//! buffers and their views, and the shader-source compatibility pass.

pub mod binding;
pub mod buffer;
pub mod dispatch;
pub mod error;
pub mod function;
pub mod grid;
pub mod patch;
pub mod target;

pub use binding::{BoundArgs, NamedArgs, ShaderArgs, ShaderBinding};
pub use buffer::{Buffer, BufferSlice, DeviceValue};
pub use error::{HalError, ShaderArgsError};
pub use function::GpuFunction;
