//! The CFOP method.

pub mod cross;
