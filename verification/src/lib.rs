//! Typed bindings for the Azure AI Services Analyze Image API, versions 3.2
//! and 4.0 (`2023-04-01-preview`).
//!
//! The crate holds the parts of a client that decide something: how the
//! subscription key is kept, which headers a client sends, which query
//! parameters an options record turns into, and what a response status means.
//! Each of them carries a contract that is checked by Verus.

pub mod common;
pub mod v32;
pub mod v40;
