//! Builders for visual-programming project files.
//!
//! A project is described as a tree of builders: a project of targets, a
//! target of scripts, a script of blocks, a block of fields and input
//! slots, and a slot of values or further stacks of blocks. Building
//! lowers each script into a flat table of uniquely identified nodes that
//! are linked by parent and successor references, with the names in
//! fields and reporters resolved against the variables, lists and
//! broadcasts in scope.
//!
//! Every build comes in two forms. `build_with` draws the fresh
//! identifiers it needs from a list that the caller hands in, so that its
//! result is a function of its arguments; `build` generates that list at
//! random first. [`lowering`] states what a build yields, and [`laws`]
//! what holds of every result.
//!
//! Places, sizes and other measures are whole numbers throughout.

pub mod asset;
pub mod block;
pub mod block_definer;
pub mod blocks;
pub mod build_context;
pub mod comment;
pub mod data;
pub mod engine;
pub mod error;
pub mod laws;
pub mod lowering;
pub mod name;
pub mod opcode;
pub mod prelude;
pub mod project;
pub mod report;
pub mod resource;
pub mod schema;
pub mod stack;
pub mod table;
pub mod target;
pub mod uid;

pub use report::{Build, BuildMethod, BuildReport};
