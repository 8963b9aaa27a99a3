//! A verified core for raw OpenCL calls: status codes, error messages, and
//! the decisions taken around each call into the OpenCL runtime.

pub mod status;
pub mod text;
pub mod error;
pub mod queue;
pub mod context;
pub mod utf8;
pub mod program;
pub mod device;
pub mod platform;
pub mod kernel;
