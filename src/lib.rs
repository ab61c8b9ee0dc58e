//! Synthesis of native-interface boundary entry points, and the marshalling of values
//! across the boundary, stated and proved with Verus.
//!
//! The pipeline, leaves first:
//! - [`options`] reads the export options of a declaration;
//! - [`signature`] builds a function's descriptor from its declared syntax;
//! - [`registry`] and [`convert`] hold the conversion rules and the conversions, with
//!   their laws in [`laws`];
//! - [`wrapper`] plans the arguments and synthesizes the entry point, named by [`symbol`];
//! - [`translate`] is what the entry point does at call time: the argument prologue and
//!   the translation of the outcome into a value or a signalled exception.
//!
//! [`typed`] gives native Rust types their rules.
pub mod text;
pub mod symbol;
pub mod model;
pub mod registry;
pub mod convert;
pub mod laws;
pub mod signature;
pub mod wrapper;
pub mod options;
pub mod translate;
pub mod typed;
