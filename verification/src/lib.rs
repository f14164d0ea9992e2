//! Build-and-launch orchestration for a profiling workflow: resolve which
//! artifact to build, assemble the build and run invocations, and describe
//! them as an immutable execution plan that can be rendered or executed.

pub mod cli;
pub mod error;
pub mod laws;
pub mod manifest;
pub mod paths;
pub mod plan;
pub mod render;
pub mod target;
pub mod text;
pub mod workspace;

pub use cli::CargoCli;
pub use cli::Config;
pub use error::Error;
