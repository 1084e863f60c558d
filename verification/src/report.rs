//! The four checks, on a listing that the caller fetched.

use vstd::prelude::*;
use crate::health::{
    classify_node, classify_pod, healthy_count, node_health, pod_health, pod_phase,
    pod_phase_text, tally, unhealthy_count, Health, Summary,
};
use crate::views::{EventView, NodeView, PodView, ServiceView};

verus! {

/// What the node check found of one node.
#[derive(Clone, Debug, PartialEq, Eq)]
pub struct NodeEntry {
    pub name: String,
    pub health: Health,
}

/// What the pod check found of one pod.
#[derive(Clone, Debug, PartialEq, Eq)]
pub struct PodEntry {
    pub name: String,
    /// The phase to show: the pod's own, or `Unknown`.
    pub phase: String,
    pub health: Health,
}

/// What the event check shows of one event.
#[derive(Clone, Debug, PartialEq, Eq)]
pub struct EventEntry {
    pub name: String,
    /// The message to show: the event's own, or `No message`.
    pub message: String,
}

/// The result of the node check: one entry per node, in the listing's order,
/// and the counts.
#[derive(Clone, Debug, PartialEq, Eq)]
pub struct NodeReport {
    pub entries: Vec<NodeEntry>,
    pub summary: Summary,
}

/// The result of the pod check: one entry per pod, in the listing's order,
/// and the counts.
#[derive(Clone, Debug, PartialEq, Eq)]
pub struct PodReport {
    pub entries: Vec<PodEntry>,
    pub summary: Summary,
}

/// The labels of a node listing, in its order.
pub open spec fn node_labels(nodes: Seq<NodeView>) -> Seq<Health> {
    Seq::new(nodes.len(), |i: int| node_health(nodes[i]))
}

/// The labels of a pod listing, in its order.
pub open spec fn pod_labels(pods: Seq<PodView>) -> Seq<Health> {
    Seq::new(pods.len(), |i: int| pod_health(pods[i]))
}

/// The message that is shown for an event: its own, or `No message`.
pub open spec fn event_message_text(event: EventView) -> Seq<char> {
    match event.message {
        Some(message) => message@,
        None => "No message"@,
    }
}

/// Checks a node listing: every node is labelled by its readiness, and the
/// labels are counted. The two counts add up to the number of nodes.
pub fn check_nodes(nodes: &Vec<NodeView>) -> (report: NodeReport)
    ensures
        report.entries.len() == nodes.len(),
        forall|i: int|
            0 <= i < nodes.len() ==> (#[trigger] report.entries@[i]).name@ == nodes@[i].name@
                && report.entries@[i].health == node_health(nodes@[i]),
        report.summary.healthy == healthy_count(node_labels(nodes@)),
        report.summary.unhealthy == unhealthy_count(node_labels(nodes@)),
        report.summary.healthy + report.summary.unhealthy == nodes.len(),
{
    let mut entries: Vec<NodeEntry> = Vec::new();
    let mut labels: Vec<Health> = Vec::new();
    let mut i: usize = 0;
    while i < nodes.len()
        invariant
            i <= nodes.len(),
            entries.len() == i,
            labels.len() == i,
            forall|j: int|
                0 <= j < i ==> (#[trigger] entries@[j]).name@ == nodes@[j].name@
                    && entries@[j].health == node_health(nodes@[j]),
            forall|j: int| 0 <= j < i ==> #[trigger] labels@[j] == node_health(nodes@[j]),
        decreases nodes.len() - i,
    {
        let health = classify_node(&nodes[i]);
        entries.push(NodeEntry { name: nodes[i].name.clone(), health });
        labels.push(health);
        i += 1;
    }
    proof {
        assert(labels@ =~= node_labels(nodes@));
    }
    let summary = tally(&labels);
    NodeReport { entries, summary }
}

/// Checks a pod listing: every pod is labelled by the phase shown for it,
/// and the labels are counted. The two counts add up to the number of pods.
pub fn check_pods(pods: &Vec<PodView>) -> (report: PodReport)
    ensures
        report.entries.len() == pods.len(),
        forall|i: int|
            0 <= i < pods.len() ==> (#[trigger] report.entries@[i]).name@ == pods@[i].name@
                && report.entries@[i].phase@ == pod_phase_text(pods@[i])
                && report.entries@[i].health == pod_health(pods@[i]),
        report.summary.healthy == healthy_count(pod_labels(pods@)),
        report.summary.unhealthy == unhealthy_count(pod_labels(pods@)),
        report.summary.healthy + report.summary.unhealthy == pods.len(),
{
    let mut entries: Vec<PodEntry> = Vec::new();
    let mut labels: Vec<Health> = Vec::new();
    let mut i: usize = 0;
    while i < pods.len()
        invariant
            i <= pods.len(),
            entries.len() == i,
            labels.len() == i,
            forall|j: int|
                0 <= j < i ==> (#[trigger] entries@[j]).name@ == pods@[j].name@
                    && entries@[j].phase@ == pod_phase_text(pods@[j])
                    && entries@[j].health == pod_health(pods@[j]),
            forall|j: int| 0 <= j < i ==> #[trigger] labels@[j] == pod_health(pods@[j]),
        decreases pods.len() - i,
    {
        let health = classify_pod(&pods[i]);
        let phase = pod_phase(&pods[i]);
        entries.push(PodEntry { name: pods[i].name.clone(), phase, health });
        labels.push(health);
        i += 1;
    }
    proof {
        assert(labels@ =~= pod_labels(pods@));
    }
    let summary = tally(&labels);
    PodReport { entries, summary }
}

/// Checks a service listing: the names, in the listing's order. Services are
/// not classified.
pub fn check_services(services: &Vec<ServiceView>) -> (names: Vec<String>)
    ensures
        names.len() == services.len(),
        forall|i: int| 0 <= i < services.len() ==> (#[trigger] names@[i])@ == services@[i].name@,
{
    let mut names: Vec<String> = Vec::new();
    let mut i: usize = 0;
    while i < services.len()
        invariant
            i <= services.len(),
            names.len() == i,
            forall|j: int| 0 <= j < i ==> (#[trigger] names@[j])@ == services@[j].name@,
        decreases services.len() - i,
    {
        names.push(services[i].name.clone());
        i += 1;
    }
    names
}

/// The message to show for an event.
pub fn event_message(event: &EventView) -> (message: String)
    ensures
        message@ == event_message_text(*event),
{
    match &event.message {
        Some(message) => message.clone(),
        None => "No message".to_owned(),
    }
}

/// Checks an event listing: name and message of each event, in the listing's
/// order. Events are not classified.
pub fn check_events(events: &Vec<EventView>) -> (entries: Vec<EventEntry>)
    ensures
        entries.len() == events.len(),
        forall|i: int|
            0 <= i < events.len() ==> (#[trigger] entries@[i]).name@ == events@[i].name@
                && entries@[i].message@ == event_message_text(events@[i]),
{
    let mut entries: Vec<EventEntry> = Vec::new();
    let mut i: usize = 0;
    while i < events.len()
        invariant
            i <= events.len(),
            entries.len() == i,
            forall|j: int|
                0 <= j < i ==> (#[trigger] entries@[j]).name@ == events@[j].name@
                    && entries@[j].message@ == event_message_text(events@[j]),
        decreases events.len() - i,
    {
        let message = event_message(&events[i]);
        entries.push(EventEntry { name: events[i].name.clone(), message });
        i += 1;
    }
    entries
}

} // verus!
