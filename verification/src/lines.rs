//! The lines of the output, for parts that are shown in a given way.

use vstd::prelude::*;
use vstd::string::*;
use crate::dispatch::ResourceKind;
use crate::health::{Health, Summary};
use crate::text::{decimal, decimal_string};

verus! {

/// The counts of a summary in words.
pub open spec fn counts_text(summary: Summary) -> Seq<char> {
    decimal(summary.healthy as nat) + " healthy, "@ + decimal(summary.unhealthy as nat)
        + " unhealthy"@
}

/// The summary line: a tag, a space and the counts.
pub open spec fn summary_line_text(tag: Seq<char>, summary: Summary) -> Seq<char> {
    tag + " "@ + counts_text(summary)
}

/// The line of a node. `name` is the name as it is shown.
pub open spec fn node_line_text(name: Seq<char>, health: Health) -> Seq<char> {
    match health {
        Health::Healthy => "\u{2705} Node: "@ + name,
        Health::Unhealthy => "\u{274c} Node: "@ + name + " (NotReady)"@,
    }
}

/// The line of a pod. `name` and `phase` are given as they are shown; the
/// phase appears only for an unhealthy pod.
pub open spec fn pod_line_text(name: Seq<char>, phase: Seq<char>, health: Health) -> Seq<char> {
    match health {
        Health::Healthy => "\u{2705} Pod: "@ + name,
        Health::Unhealthy => "\u{274c} Pod: "@ + name + " (Status: "@ + phase + ")"@,
    }
}

/// The line of a service.
pub open spec fn service_line_text(name: Seq<char>) -> Seq<char> {
    "\u{1f539} Service: "@ + name
}

/// The line of an event.
pub open spec fn event_line_text(name: Seq<char>, message: Seq<char>) -> Seq<char> {
    "\u{1f4e2} Event: "@ + name + " - "@ + message
}

/// What a check announces before it lists, after the tag.
pub open spec fn announcement(kind: ResourceKind) -> Seq<char> {
    match kind {
        ResourceKind::Nodes => " Running health check on Kubernetes nodes..."@,
        ResourceKind::Pods => " Running health check on Kubernetes pods..."@,
        ResourceKind::Services => " Running health check on Kubernetes services..."@,
        ResourceKind::Events => " Fetching recent Kubernetes events..."@,
    }
}

/// The first line of a check: a tag and the announcement.
pub open spec fn banner_text(tag: Seq<char>, kind: ResourceKind) -> Seq<char> {
    tag + announcement(kind)
}

/// The complaint about a resource argument that names no kind.
pub open spec fn invalid_resource_text(tag: Seq<char>) -> Seq<char> {
    tag + " Invalid resource. Use 'nodes', 'pods', 'services', or 'events'."@
}

/// Writes the counts of a summary.
pub fn counts(summary: &Summary) -> (text: String)
    ensures
        text@ == counts_text(*summary),
{
    decimal_string(summary.healthy).concat(" healthy, ").concat(
        decimal_string(summary.unhealthy).as_str(),
    ).concat(" unhealthy")
}

/// Writes the summary line behind a tag.
pub fn summary_line(tag: &str, summary: &Summary) -> (line: String)
    ensures
        line@ == summary_line_text(tag@, *summary),
{
    tag.to_owned().concat(" ").concat(counts(summary).as_str())
}

/// Writes the line of a node whose name is shown as `name`.
pub fn node_line(name: &str, health: Health) -> (line: String)
    ensures
        line@ == node_line_text(name@, health),
{
    match health {
        Health::Healthy => "\u{2705} Node: ".to_owned().concat(name),
        Health::Unhealthy => "\u{274c} Node: ".to_owned().concat(name).concat(" (NotReady)"),
    }
}

/// Writes the line of a pod whose name and phase are shown as given.
pub fn pod_line(name: &str, phase: &str, health: Health) -> (line: String)
    ensures
        line@ == pod_line_text(name@, phase@, health),
{
    match health {
        Health::Healthy => "\u{2705} Pod: ".to_owned().concat(name),
        Health::Unhealthy => "\u{274c} Pod: ".to_owned().concat(name).concat(" (Status: ").concat(
            phase,
        ).concat(")"),
    }
}

/// Writes the line of a service whose name is shown as `name`.
pub fn service_line(name: &str) -> (line: String)
    ensures
        line@ == service_line_text(name@),
{
    "\u{1f539} Service: ".to_owned().concat(name)
}

/// Writes the line of an event.
pub fn event_line(name: &str, message: &str) -> (line: String)
    ensures
        line@ == event_line_text(name@, message@),
{
    "\u{1f4e2} Event: ".to_owned().concat(name).concat(" - ").concat(message)
}

/// Writes the first line of a check behind a tag.
pub fn banner(tag: &str, kind: ResourceKind) -> (line: String)
    ensures
        line@ == banner_text(tag@, kind),
{
    let rest = match kind {
        ResourceKind::Nodes => " Running health check on Kubernetes nodes...",
        ResourceKind::Pods => " Running health check on Kubernetes pods...",
        ResourceKind::Services => " Running health check on Kubernetes services...",
        ResourceKind::Events => " Fetching recent Kubernetes events...",
    };
    tag.to_owned().concat(rest)
}

/// Writes the complaint about an invalid resource argument behind a tag.
pub fn invalid_resource_line(tag: &str) -> (line: String)
    ensures
        line@ == invalid_resource_text(tag@),
{
    tag.to_owned().concat(" Invalid resource. Use 'nodes', 'pods', 'services', or 'events'.")
}

} // verus!
