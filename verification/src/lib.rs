//! Request validation, response shaping and policy decisions of the iono
//! file, paste and short-link service, with their contracts.

pub mod account;
pub mod embed;
pub mod error;
pub mod pages;
pub mod publish;
pub mod records;
pub mod requests;
pub mod settings;
pub mod sharex;
pub mod sweep;
pub mod text;
pub mod time;
