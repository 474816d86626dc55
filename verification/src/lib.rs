//! Decoder for the instruction stream of one compiled-function body in the
//! WebAssembly binary format.
//!
//! The crate turns a byte cursor scoped to a function body into a sequence of
//! strongly typed [`operator::Operator`] values, either one at a time, through
//! a lazy iterator, or through the double-dispatch [`visitor::VisitOperator`]
//! interface. Every decode step is specified against spec-level decode
//! functions over the underlying byte sequence, so a successful decode is
//! proved to return exactly the instruction the bytes encode, and a failed
//! decode is proved to happen exactly on malformed input.

pub mod error;
pub mod reader;
pub mod immediates;
pub mod tables;
pub mod branch;
pub mod operator;
pub mod visitor;
pub mod operators_reader;
