//! Bootstrap of a latency benchmark against a sharded text-generation
//! backend: configuration resolution, tokenizer source selection, error
//! taxonomy and the strictly ordered start-up sequence.

pub mod backend;
pub mod bootstrap;
pub mod config;
pub mod logging;
pub mod tokenizer;
