//! A process-wide logging facade: severity filtering, deterministic header
//! rendering, a size-rotated file sink, a console sink, fan-out over both,
//! and an install/guard registry for the active logger.

use vstd::prelude::*;

pub mod logger;
pub mod record;
pub mod registry;
pub mod render;
pub mod rotate;
pub mod severity;
pub mod sink;

pub use logger::LogOutput;
pub use logger::Logger;
pub use record::Location;
pub use record::LogRecord;
pub use record::Timestamp;
pub use record::now_local;
pub use registry::Handle;
pub use registry::Registry;
pub use registry::initlogger;
pub use registry::setup_logger;
pub use render::render_record;
pub use rotate::RenameStep;
pub use rotate::RotatingFileSink;
pub use rotate::RotationPolicy;
pub use rotate::SinkError;
pub use rotate::rotation_rename_steps;
pub use severity::Severity;
pub use sink::ConsoleSink;
pub use sink::SinkConfig;

verus! {

/// One byte; the unit the size constants below are multiples of.
pub const BITE: u64 = 1;

/// One kibibyte.
pub const KB: u64 = BITE * 1024;

/// One mebibyte.
pub const MB: u64 = KB * 1024;

/// One gibibyte.
pub const GB: u64 = MB * 1024;

} // verus!
