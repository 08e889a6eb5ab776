//! A source-to-source generator for conversion-trait implementations.
//!
//! An annotated direct-impl block holds a list of handler functions, each
//! taking a single typed parameter (the "message") and building a value of
//! the block's self type.  The pipeline validates the block's shape, extracts
//! per-handler metadata (message type, generics) and re-emits each handler as
//! one independent `From`-style trait implementation, with the handler's
//! generic parameters hoisted onto the implementation block.
//!
//! The host toolchain's token bridge (parsing raw tokens into the structured
//! model and printing the generated fragment back out) sits outside this
//! library; everything here works on the plain structured model and is
//! verified.

pub mod errors;
pub mod laws;
pub mod model;
pub mod pipeline;
pub mod render;
