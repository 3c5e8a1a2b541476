//! Verified message formats and configuration logic of the Caliptra MCU
//! subsystem: PLDM firmware-update messages, MCTP framing, the flash image
//! layout, boot and capability configuration, and mailbox command tables.
pub mod builder;
pub mod config;
pub mod flash_image;
pub mod host;
pub mod mbox;
pub mod pldm;
pub mod wire;
