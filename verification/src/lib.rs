//! The `hazard-generator` tool generates APIs
//! starting from a JSON ontology
//! for the following programming languages:
//!
//! - Rust

pub mod api;
pub mod engine;
pub mod error;
pub mod filters;
pub mod ontology;
pub mod producer;
pub mod text;
pub mod toolchain;

pub use error::{Error, ErrorKind, Result};
pub use producer::{HazardsProducer, TemplateType};
