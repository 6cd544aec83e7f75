//! A typed reader for declarative window descriptions.
//!
//! A description is a key/value text document. It is parsed into a tree of
//! [`reader::node::Node`]s, decoded into a [`model::Window`], and the bindings
//! in that window are resolved against a [`reader::data_model::DataObject`]
//! each time the window is drawn.

pub mod const_concat;
pub mod laws;
pub mod model;
pub mod reader;
pub mod text;
