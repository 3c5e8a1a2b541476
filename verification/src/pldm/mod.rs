//! PLDM messages for the base and firmware-update
//! types, their wire encoding, and the MCTP framing around them.
pub mod codec;
pub mod error;
pub mod layouts;
pub mod message;
pub mod protocol;
pub mod util;
