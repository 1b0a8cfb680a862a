//! The `DOM` domain.
use vstd::prelude::*;

use crate::json::Json;
use crate::number::Num;

verus! {

/// Identifies a DOM node.
#[derive(Clone, Copy, Debug, PartialEq, Eq, Structural)]
pub struct NodeId(pub i64);

impl DeepView for NodeId {
    type V = NodeId;

    open spec fn deep_view(&self) -> NodeId {
        *self
    }
}

/// Identifies a DOM node to the backend. It stays valid when the node was not pushed to the client.
#[derive(Clone, Copy, Debug, PartialEq, Eq, Structural)]
pub struct BackendNodeId(pub i64);

impl DeepView for BackendNodeId {
    type V = BackendNodeId;

    open spec fn deep_view(&self) -> BackendNodeId {
        *self
    }
}

/// Identifies a search that `DOM.performSearch` started.
#[derive(Debug, PartialEq, Eq)]
pub struct SearchId(pub String);

impl DeepView for SearchId {
    type V = Seq<char>;

    open spec fn deep_view(&self) -> Seq<char> {
        self.0@
    }
}

impl Clone for SearchId {
    fn clone(&self) -> (copy: SearchId)
        ensures
            copy == *self,
    {
        SearchId(self.0.clone())
    }
}

/// A rectangle in CSS pixels.
#[derive(Clone, Copy, Debug, PartialEq, Eq, Structural)]
pub struct Rect {
    pub x: Num,
    pub y: Num,
    pub width: Num,
    pub height: Num,
}

impl DeepView for Rect {
    type V = Rect;

    open spec fn deep_view(&self) -> Rect {
        *self
    }
}

/// A colour, with its opacity.
#[derive(Clone, Copy, Debug, PartialEq, Eq, Structural)]
pub struct Rgba {
    pub r: i64,
    pub g: i64,
    pub b: i64,
    pub a: Option<Num>,
}

impl DeepView for Rgba {
    type V = Rgba;

    open spec fn deep_view(&self) -> Rgba {
        *self
    }
}

/// What `DOM.performSearch` returns.
#[derive(Debug, PartialEq, Eq)]
pub struct PerformSearchReturns {
    pub search_id: SearchId,
    pub result_count: i64,
}

/// The contents of a [`PerformSearchReturns`].
pub struct PerformSearchReturnsView {
    pub search_id: Seq<char>,
    pub result_count: i64,
}

impl DeepView for PerformSearchReturns {
    type V = PerformSearchReturnsView;

    open spec fn deep_view(&self) -> PerformSearchReturnsView {
        PerformSearchReturnsView {
            search_id: self.search_id.deep_view(),
            result_count: self.result_count,
        }
    }
}

/// A node of the document, with what was asked for of its subtree.
#[derive(Debug, PartialEq, Eq)]
pub struct Node {
    pub node_id: NodeId,
    pub backend_node_id: BackendNodeId,
    pub node_name: String,
    pub local_name: String,
    pub node_value: String,
    /// Names and values of the attributes in turn: `[name1, value1, name2, value2]`.
    pub attributes: Option<Vec<String>>,
    pub children: Option<Vec<Node>>,
    /// What else the browser says of it, as a JSON object.
    pub details: Json,
}

/// The contents of a [`Node`].
pub struct NodeView {
    pub node_id: NodeId,
    pub backend_node_id: BackendNodeId,
    pub node_name: Seq<char>,
    pub local_name: Seq<char>,
    pub node_value: Seq<char>,
    pub attributes: Option<Seq<Seq<char>>>,
    pub children: Option<Seq<NodeView>>,
    pub details: Seq<char>,
}

impl Node {
    pub open spec fn contents(self) -> NodeView
        decreases self,
    {
        NodeView {
            node_id: self.node_id,
            backend_node_id: self.backend_node_id,
            node_name: self.node_name@,
            local_name: self.local_name@,
            node_value: self.node_value@,
            attributes: self.attributes.deep_view(),
            children: match self.children {
                Some(nodes) => Some(
                    Seq::new(
                        nodes@.len(),
                        |i: int|
                            if 0 <= i < nodes@.len() {
                                nodes@[i].contents()
                            } else {
                                arbitrary()
                            },
                    ),
                ),
                None => None,
            },
            details: self.details.deep_view(),
        }
    }
}

impl DeepView for Node {
    type V = NodeView;

    open spec fn deep_view(&self) -> NodeView {
        self.contents()
    }
}

} // verus!
