//! The child union of the document body: what may stand between other tags.

use crate::legality::IntoUnion;
use crate::tags::select::{Select, SelectModel};
use crate::text::Text;
use vstd::prelude::*;

verus! {

/// The kinds of content that are legal in the body.
#[derive(Debug)]
pub enum BodyNode {
    Select(Select),
    Text(Text),
}

/// What a node of the body is.
pub enum NodeModel {
    Select(SelectModel),
    Text(Seq<char>),
}

impl NodeModel {
    /// The node as text: a tag with its subtree, or the text as it stands.
    pub open spec fn markup(self) -> Seq<char> {
        match self {
            NodeModel::Select(tree) => tree.markup(),
            NodeModel::Text(text) => text,
        }
    }
}

impl View for BodyNode {
    type V = NodeModel;

    open spec fn view(&self) -> NodeModel {
        match self {
            BodyNode::Select(tag) => NodeModel::Select(tag@),
            BodyNode::Text(text) => NodeModel::Text(text@),
        }
    }
}

impl BodyNode {
    /// Appends the node as text to `out`: each kind writes itself.
    pub fn write_to(&self, out: &mut String)
        ensures
            final(out)@ == old(out)@ + self@.markup(),
    {
        match self {
            BodyNode::Select(tag) => tag.write_to(out),
            BodyNode::Text(text) => text.write_to(out),
        }
    }

    /// The node as text.
    pub fn render(&self) -> (text: String)
        ensures
            text@ == self@.markup(),
    {
        match self {
            BodyNode::Select(tag) => tag.render(),
            BodyNode::Text(text) => text.render(),
        }
    }
}

impl Clone for BodyNode {
    fn clone(&self) -> (copy: BodyNode)
        ensures
            copy@ == self@,
    {
        match self {
            BodyNode::Select(tag) => BodyNode::Select(tag.clone()),
            BodyNode::Text(text) => BodyNode::Text(text.clone()),
        }
    }
}

impl IntoUnion<BodyNode> for Select {
    open spec fn as_union(self) -> BodyNode {
        BodyNode::Select(self)
    }

    fn into_union(self) -> (member: BodyNode) {
        BodyNode::Select(self)
    }
}

impl IntoUnion<BodyNode> for Text {
    open spec fn as_union(self) -> BodyNode {
        BodyNode::Text(self)
    }

    fn into_union(self) -> (member: BodyNode) {
        BodyNode::Text(self)
    }
}

impl IntoUnion<BodyNode> for BodyNode {
    open spec fn as_union(self) -> BodyNode {
        self
    }

    fn into_union(self) -> (member: BodyNode) {
        self
    }
}

} // verus!
