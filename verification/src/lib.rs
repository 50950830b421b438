//! Generator of structural-equality procedures for circuit record types.
//!
//! Given a structural description of a composite record type, the library
//! classifies each field's shape (scalar or fixed-length array) and semantic
//! kind (plain or context-dependent boolean signal), normalizes the type's
//! generic parameter list so that it carries exactly one engine-bound context
//! parameter, and emits the comparison procedure: a structured plan together
//! with its source text. An evaluation semantics for emitted plans lets the
//! meaning of the generated procedure be stated and proved.

#![allow(unused_imports)]

pub mod classifier;
pub mod descriptor;
pub mod emitter;
pub mod eval;
pub mod generator;
pub mod laws;
pub mod normalizer;
pub mod reader;
pub mod render;

use vstd::prelude::*;
