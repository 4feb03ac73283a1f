//! Plugin execution core for a text-editing utility.
//!
//! A plugin is a short script, identified by a lower-cased name, that
//! transforms the content of a text buffer.  The library keeps a registry of
//! named plugin sources, and runs one of them on demand inside a fresh,
//! single-use script execution context: the buffer text is bound read-only
//! into the context, the source is evaluated, its `main` entry point is
//! invoked, and the returned text (or a diagnostic for any failure) is
//! handed back to the caller as an [`outcome::InvocationResult`].

pub mod adapter;
pub mod controller;
pub mod engine;
pub mod host;
pub mod outcome;
pub mod registry;
pub mod text;
