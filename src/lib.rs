//! The RDF data model: terms, statements and a factory that builds them.
pub mod model;
