//! Catalog-driven ORM source generation for Oracle databases.
//!
//! The pipeline turns live catalog query results into structured table
//! descriptors and renders them through a fixed template into generated
//! source text: catalog reader -> cell/row store -> descriptor assembler
//! (with the type mapper) -> template renderer.

pub mod cli;
pub mod context;
pub mod env;
pub mod error;
pub mod mapper;
pub mod run;
pub mod store;
pub mod tmpl;
pub mod util;
