//! Planning and bookkeeping for a small OpenGL pipeline: one shader program,
//! one triangle mesh, an optional texture, and the frame loop that draws them.
//!
//! The library never touches the GPU. Every operation is a state machine that
//! hands out [`gpu::GpuCall`]s for the host to perform and takes back the
//! driver's [`gpu::GpuReply`]; the contracts fix which calls are issued, in
//! which order, and what each driver answer leads to.

pub mod codes;
pub mod config;
pub mod context;
pub mod error;
pub mod frame;
pub mod gpu;
pub mod handle;
pub mod mesh;
pub mod pipeline;
pub mod shader;
pub mod texture;
