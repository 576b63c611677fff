//! A local vault of secrets, each one an armored age envelope.
//!
//! The library holds the rules of the vault on plain values: which bytes an
//! operation stores, which error it reports, and when the stored envelope is
//! left alone. Reading and writing files, and running the editor, belong to
//! the program around it.

pub mod cli;
pub mod codec;
pub mod config;
pub mod dropins;
pub mod error;
pub mod hasher;
pub mod keys;
pub mod laws;
pub mod scratch;
pub mod secret;
pub mod sync;
pub mod util;
