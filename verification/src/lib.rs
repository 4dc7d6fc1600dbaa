//! Verified core of a serial environmental-sensor acquisition stack:
//! per-model wire-protocol codecs (frame layout, CRC validation, scale
//! derivation), a uniform driver abstraction with a model registry, the
//! CSV logging text, and the session lifecycle rules.

pub mod clock;
pub mod csvlog;
pub mod nextpm;
pub mod registry;
pub mod rydason;
pub mod sensor;
pub mod session;
pub mod tb600b_c;
pub mod textfmt;
pub mod wire;
