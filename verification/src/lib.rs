//! A fluent construction layer for tree-structured syntax nodes.
//!
//! Small, single-use builder objects are chained through a
//! continuation-passing mechanism: each builder owns a continuation (a value
//! implementing [`invoke::Invoke`]) and, on finalization, assembles a node
//! and hands it to that continuation.  With the default [`invoke::Identity`]
//! continuation the finished node itself is returned; any other continuation
//! decides what happens to the node next, for instance feeding it into an
//! enclosing builder that is still collecting parts.

pub mod ast;
pub mod expr;
pub mod ident;
pub mod interned;
pub mod invoke;
pub mod item;
pub mod lit;
pub mod pat;
pub mod stmt;
pub mod ty;
