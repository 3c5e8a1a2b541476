pub mod control;
pub mod firmware_update;
