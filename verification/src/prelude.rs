//! The names that a caller needs, in one place.

pub use crate::attributes::{Class, Id, IntoAttribute, Name};
pub use crate::legality::IntoUnion;
pub use crate::store::AttributeStore;
pub use crate::tags::body_node::BodyNode;
pub use crate::tags::option::{SelectOption, SelectOptionAttr};
pub use crate::tags::select::{select, Select, SelectAttr};
pub use crate::text::Text;
