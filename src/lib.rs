//! Type-state builders for records with named fields.
//!
//! A builder holds one slot per field, and each slot's type says whether the
//! field is set. This crate decides those types for every generated item:
//! the entry point, one setter per field (with an overload that flags a
//! repeated set), one build overload per required field that reports it
//! missing, the mutators, and the build method. `laws` proves what those
//! decisions guarantee to a caller of the builder.

use vstd::prelude::*;

pub mod schema;
pub mod config;
pub mod typestate;
pub mod state;
pub mod laws;
pub mod docs;
pub mod plan;
