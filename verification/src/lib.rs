//! Image loading gateway for untrusted image files.
//!
//! An image is decoded by a loader, a process of its own in a sandbox, and
//! the host gets the pixels in shared memory. This library holds what the
//! host and the loaders decide and compute on the way:
//!
//! - `memory_format`: the pixel formats and the sizes that follow from them;
//! - `dbus`, `error`: the values and errors that host and loader exchange;
//! - `config`: the registry of loaders, filled from manifests;
//! - `sandbox`: the command line of the sandbox, the memory limit and the
//!   list of system calls that a loader may make;
//! - `pipeline`, `orientation`, `icc`: the checks on a frame that came back,
//!   its orientation, the removal of row padding and the colour transform;
//! - `process`, `worker`, `api`: what the host does next while it starts a
//!   loader, feeds it the file and serves the application;
//! - `image_rs`, `loaders`, `operations`: what the loaders decide besides
//!   decoding.
//!
//! Reading files, starting processes, mapping and sealing memory and the
//! connection itself are left to the caller, who hands in what was read and
//! carries out what comes back.

pub mod api;
pub mod config;
pub mod dbus;
pub mod error;
pub mod icc;
pub mod image_rs;
pub mod loaders;
pub mod memory_format;
pub mod operations;
pub mod orientation;
pub mod pipeline;
pub mod process;
pub mod sandbox;
pub mod save_conversion;
pub mod text;
pub mod worker;
