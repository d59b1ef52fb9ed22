//! A verified core for a terminal tool that ranks source-code repositories:
//! the record model, the filter and sort engine, the key-handler state
//! machine, and the text the renderer puts on screen.

pub mod strutil;
pub mod stats;
pub mod sort;
pub mod filter;
pub mod input;
pub mod error;
pub mod cli;
pub mod health;
pub mod meta;
pub mod parser;
pub mod context;
pub mod schema;
pub mod repo;
pub mod ui;
