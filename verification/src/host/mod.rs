//! The Caliptra utility host library: command identifiers, mailbox
//! dispatch, fuse command structures, and validation results.
pub mod attestation;
pub mod command_types;
pub mod dispatch;
pub mod dot;
pub mod fuse;
pub mod fuse_suite;
pub mod negative_auth;
pub mod plan;
pub mod provision;
pub mod sequences;
pub mod validator;
