//! Verified core of a filesystem tool server.
//!
//! The server offers tools that read, write, move, list and edit files below
//! a set of allowed directories. This library holds what decides: which
//! directories are allowed (`registry`), whether a path lies in one of them
//! (`authorize`, over the lexical rules of `path`), how a text is edited at an
//! anchor that must be unique (`edit`), how a method name and its parameters
//! become a typed call (`dispatch`, `catalog`), and what a call does step by
//! step (`tools`). It touches no disk: what the disk says is handed in, and
//! what is to be done on the disk is handed out.
pub mod authorize;
pub mod catalog;
pub mod dispatch;
pub mod edit;
pub mod path;
pub mod prompts;
pub mod registry;
pub mod repo;
pub mod requests;
pub mod resources;
pub mod results;
pub mod text;
pub mod tools;
pub mod utilities;
