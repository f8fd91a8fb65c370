//! FlowFS: a verified model of a small note-organizing service.
//!
//! Notes ("cells") belong to users and are linked to one another through a
//! `family_tree` relation of (child, parent) pairs, which is a general
//! directed graph: nothing prevents cycles or self-loops.  The heart of the
//! library is the ancestry materializer, which turns that relation into
//! explicit child and parent trees while tracking visited identifiers so
//! that it terminates on every graph, cyclic or not.

pub mod handler;
pub mod model;
pub mod store;
pub mod svg_icon;
pub mod tree;
pub mod utils;
