//! The tags.

pub mod body_node;
pub mod option;
pub mod select;
