//! Planning logic of a build driver that cross-compiles the libunwind runtime
//! shipped in a Rust toolchain's source tree into two static archives.
//!
//! The crate decides; it performs no input or output.  A caller runs the
//! [`driver`] state machine: it carries out each action the driver asks for
//! (probing the toolchain, creating the output directory, invoking the
//! compiler, listing the objects that were produced) and reports the outcome
//! back as an event.

pub mod args;
pub mod driver;
pub mod paths;
pub mod plan;
pub mod probe;
pub mod recover;
pub mod session;
pub mod target;
pub mod text;
pub mod toolchain;
