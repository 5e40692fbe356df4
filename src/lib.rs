//! Command protocol adapter for a cloud smart-home device API: validated
//! command values, their wire encoding, request signing and the mapping of
//! device-list responses into domain devices.

pub mod text;
pub mod error;
pub mod value_objects;
pub mod ac;
pub mod device;
pub mod command;
pub mod signer;
pub mod api;
pub mod cli;
pub mod alias;
pub mod dto;
pub mod config;
pub mod dispatch;
