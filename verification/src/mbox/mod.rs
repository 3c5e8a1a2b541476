//! The MCU mailbox: command codes, errors, payloads and test identities.
pub mod checksum;
pub mod config;
pub mod dot_layout;
pub mod fuse_layout;
pub mod layout;
pub mod messages;
pub mod offsets;
pub mod request;
pub mod requests;
