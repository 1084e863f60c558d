//! From the command's two arguments to the one listing that it asks for.

use vstd::prelude::*;
use crate::text::same_text;

verus! {

/// The four kinds of resource that can be checked.
#[derive(Clone, Copy, Debug, PartialEq, Eq, Structural)]
pub enum ResourceKind {
    Nodes,
    Pods,
    Services,
    Events,
}

/// Where a listing looks.
#[derive(Clone, Debug, PartialEq, Eq)]
pub enum Scope {
    /// The whole cluster: every namespace, or a resource that has none.
    All,
    /// One namespace only.
    Namespace(String),
}

/// A scope with its namespace as a sequence of characters.
pub enum ScopeView {
    All,
    Namespace(Seq<char>),
}

impl View for Scope {
    type V = ScopeView;

    open spec fn view(&self) -> ScopeView {
        match self {
            Scope::All => ScopeView::All,
            Scope::Namespace(ns) => ScopeView::Namespace(ns@),
        }
    }
}

/// The one listing that a valid command asks of the cluster.
#[derive(Clone, Debug, PartialEq, Eq)]
pub struct Request {
    pub kind: ResourceKind,
    pub scope: Scope,
}

/// Why a command asks for no listing.
#[derive(Clone, Copy, Debug, PartialEq, Eq, Structural)]
pub enum DispatchError {
    /// The resource argument names none of the four kinds.
    InvalidResource,
}

/// The kind that a resource argument names, if any. Only the four exact
/// words are accepted.
pub open spec fn kind_of(word: Seq<char>) -> Option<ResourceKind> {
    if word == "nodes"@ {
        Some(ResourceKind::Nodes)
    } else if word == "pods"@ {
        Some(ResourceKind::Pods)
    } else if word == "services"@ {
        Some(ResourceKind::Services)
    } else if word == "events"@ {
        Some(ResourceKind::Events)
    } else {
        None
    }
}

/// The namespace argument as a sequence of characters.
pub open spec fn namespace_text(namespace: Option<&str>) -> Option<Seq<char>> {
    match namespace {
        Some(ns) => Some(ns@),
        None => None,
    }
}

/// The scope of a listing. Nodes belong to no namespace, so the argument is
/// ignored for them. The other kinds are listed in the namespace given, or
/// everywhere if none is given.
pub open spec fn scope_for(kind: ResourceKind, namespace: Option<Seq<char>>) -> ScopeView {
    match kind {
        ResourceKind::Nodes => ScopeView::All,
        _ => match namespace {
            Some(ns) => ScopeView::Namespace(ns),
            None => ScopeView::All,
        },
    }
}

/// Whether a listing with this scope includes an item of the given namespace.
pub open spec fn scope_includes(scope: ScopeView, item_namespace: Seq<char>) -> bool {
    match scope {
        ScopeView::All => true,
        ScopeView::Namespace(ns) => item_namespace == ns,
    }
}

/// With a namespace supplied, a listing of pods, services or events includes
/// the items of that namespace and no others.
pub proof fn supplied_namespace_restricts(
    kind: ResourceKind,
    namespace: Seq<char>,
    item_namespace: Seq<char>,
)
    requires
        kind != ResourceKind::Nodes,
    ensures
        scope_includes(scope_for(kind, Some(namespace)), item_namespace) <==> item_namespace
            == namespace,
{
}

/// With no namespace supplied, a listing includes the items of every
/// namespace.
pub proof fn omitted_namespace_spans_all(kind: ResourceKind, item_namespace: Seq<char>)
    ensures
        scope_includes(scope_for(kind, None), item_namespace),
{
}

/// A node listing is cluster-wide whatever namespace is supplied.
pub proof fn nodes_ignore_namespace(namespace: Option<Seq<char>>, item_namespace: Seq<char>)
    ensures
        scope_includes(scope_for(ResourceKind::Nodes, namespace), item_namespace),
{
}

/// Reads a resource argument.
pub fn parse_kind(word: &str) -> (kind: Option<ResourceKind>)
    ensures
        kind == kind_of(word@),
{
    if same_text(word, "nodes") {
        Some(ResourceKind::Nodes)
    } else if same_text(word, "pods") {
        Some(ResourceKind::Pods)
    } else if same_text(word, "services") {
        Some(ResourceKind::Services)
    } else if same_text(word, "events") {
        Some(ResourceKind::Events)
    } else {
        None
    }
}

/// Chooses the scope of a listing.
pub fn choose_scope(kind: ResourceKind, namespace: Option<&str>) -> (scope: Scope)
    ensures
        scope@ == scope_for(kind, namespace_text(namespace)),
{
    match kind {
        ResourceKind::Nodes => Scope::All,
        _ => match namespace {
            Some(ns) => Scope::Namespace(ns.to_owned()),
            None => Scope::All,
        },
    }
}

/// Decides what a command asks for. A resource argument that names one of
/// the four kinds gives exactly one request, for that kind in its scope. Any
/// other argument gives an error and no request, so that nothing is asked of
/// the cluster.
pub fn plan(resource: &str, namespace: Option<&str>) -> (outcome: Result<Request, DispatchError>)
    ensures
        match kind_of(resource@) {
            Some(kind) => outcome matches Ok(request) && request.kind == kind && request.scope@
                == scope_for(kind, namespace_text(namespace)),
            None => outcome == Err::<Request, DispatchError>(DispatchError::InvalidResource),
        },
{
    match parse_kind(resource) {
        Some(kind) => Ok(Request { kind, scope: choose_scope(kind, namespace) }),
        None => Err(DispatchError::InvalidResource),
    }
}

/// How a command ended.
#[derive(Clone, Copy, Debug, PartialEq, Eq, Structural)]
pub enum Outcome {
    /// The check ran to its end.
    Completed,
    /// The cluster could not be reached, or refused or failed the listing.
    ClusterFailed,
    /// The resource argument named no kind, and nothing was asked.
    Rejected(DispatchError),
}

/// The exit status of each outcome: zero for a completed check and for
/// nothing else.
pub open spec fn status_of(outcome: Outcome) -> u8 {
    match outcome {
        Outcome::Completed => 0,
        Outcome::ClusterFailed => 1,
        Outcome::Rejected(DispatchError::InvalidResource) => 2,
    }
}

/// The exit status of the process. An invalid resource argument counts as a
/// failure, as a failed connection or listing does.
pub fn exit_status(outcome: Outcome) -> (code: u8)
    ensures
        code == status_of(outcome),
        code == 0 <==> outcome == Outcome::Completed,
{
    match outcome {
        Outcome::Completed => 0,
        Outcome::ClusterFailed => 1,
        Outcome::Rejected(DispatchError::InvalidResource) => 2,
    }
}

} // verus!
