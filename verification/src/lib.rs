//! Builds guest sources into program blobs for a register-based virtual
//! machine: the command lines of the toolchain, the build as a state machine,
//! the call of the transformer, the blob codec, and the disassembly of a blob.

pub mod cli;
pub mod codec;
pub mod commands;
pub mod compact;
pub mod error;
pub mod paths;
pub mod pipeline;
pub mod toolchain;
pub mod transform;
pub mod types;
