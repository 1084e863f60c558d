//! Plain projections of the cluster objects that the checks read.

use vstd::prelude::*;

verus! {

/// One entry of a node's condition list.
#[derive(Clone, Debug, PartialEq, Eq)]
pub struct NodeCondition {
    /// The condition's type, such as `Ready`.
    pub type_: String,
    /// The condition's status, such as `True`, `False` or `Unknown`.
    pub status: String,
}

/// A node's status block.
#[derive(Clone, Debug, PartialEq, Eq)]
pub struct NodeStatus {
    /// The condition list; a node may report none.
    pub conditions: Option<Vec<NodeCondition>>,
}

/// A node as the node check sees it.
#[derive(Clone, Debug, PartialEq, Eq)]
pub struct NodeView {
    pub name: String,
    /// The status block; a node may come without one.
    pub status: Option<NodeStatus>,
}

/// A pod's status block.
#[derive(Clone, Debug, PartialEq, Eq)]
pub struct PodStatus {
    /// The lifecycle phase; a pod may report none.
    pub phase: Option<String>,
}

/// A pod as the pod check sees it.
#[derive(Clone, Debug, PartialEq, Eq)]
pub struct PodView {
    pub name: String,
    /// The status block; a pod may come without one.
    pub status: Option<PodStatus>,
}

/// A service as the service check sees it.
#[derive(Clone, Debug, PartialEq, Eq)]
pub struct ServiceView {
    pub name: String,
}

/// An event as the event check sees it.
#[derive(Clone, Debug, PartialEq, Eq)]
pub struct EventView {
    pub name: String,
    /// The human-readable message; an event may carry none.
    pub message: Option<String>,
}

} // verus!
