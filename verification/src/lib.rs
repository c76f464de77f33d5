//! A benchmark harness for WebAssembly execution strategies, paired with a
//! generator of synthetic WebAssembly text that stresses specific
//! control-flow constructs.

pub mod backend;
pub mod baseline;
pub mod br;
pub mod br_table;
pub mod error;
pub mod report;
pub mod timer;
pub mod wat;
