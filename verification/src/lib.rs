//! A typed builder for markup: a tag holds an attribute store and a list of
//! children, takes only the attribute and child kinds declared legal for it,
//! and renders itself and its subtree to text.

pub mod attributes;
pub mod legality;
pub mod prelude;
pub mod store;
pub mod tags;
pub mod text;
