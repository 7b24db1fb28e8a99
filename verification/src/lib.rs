//! Discovery and launch of the development shells that a flake declares.
//!
//! The library holds the decisions: where the flake lives, how the tool is
//! asked for its shells, how its answer is read into a catalog, whether a
//! shell exists, and what is run or printed next. Starting processes and
//! touching the file system are left to the caller.

pub mod cli;
pub mod cmd;
pub mod data;
pub mod decode;
pub mod document;
pub mod encode;
pub mod errors;
pub mod order;
pub mod plan;
pub mod reader;
pub mod resolve;
pub mod table;
