//! The functions that the Komorei runtime offers to sources.
pub mod base64;
pub mod crypto;
pub mod error;
