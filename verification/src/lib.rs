//! Configuration engine for converting models with the RKNN toolkit.
//!
//! A configuration document is validated and resolved into typed sections,
//! each section is marshalled into the keyword payload of one toolkit call,
//! and a report contrasts every setting with its default.  The toolkit
//! itself, the array-file loader and all input and output stay with the
//! caller: the library decides, the caller acts.
#![allow(non_snake_case)]

pub mod arrays;
pub mod configuration;
pub mod functions;
pub mod orchestrator;
pub mod payload;
pub mod plain;
pub mod section;
pub mod text;
pub mod validators;
pub mod value;
