//! Context and compatibility wrappers for fallible results.
pub mod fail;
pub mod compat;
pub mod context;
pub mod error;
pub mod result_ext;
