//! A compile-time transformation that makes a type's instances callable
//! with the host language's own call syntax: it parses a bare
//! implementation block, classifies each method's receiver discipline,
//! and synthesizes the ladder of call-protocol trait implementations the
//! discipline earns, each forwarding to the original method.

pub mod ast;
pub mod emit;
pub mod laws;
pub mod parse;
pub mod scan;
pub mod synth;
pub mod token;
