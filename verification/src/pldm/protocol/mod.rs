pub mod base;
pub mod firmware_update;
pub mod version;
