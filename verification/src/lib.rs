//! Verified core of a driver for QHY astronomical cameras: SDK status
//! codes, control identifiers, version and string decoding, frame handling,
//! the exposure cycle of a Lightspeed device, dark-frame analysis and the
//! decision logic of camera discovery and probing.

pub mod capture;
pub mod control;
pub mod dark;
pub mod device;
pub mod exposure;
pub mod fits;
pub mod frame;
pub mod gather;
pub mod probe;
pub mod scan;
pub mod status;
pub mod text;
pub mod topic;
pub mod version;
