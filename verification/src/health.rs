//! Classification of nodes and pods, and the counts of a summary.

use vstd::prelude::*;
use vstd::string::*;
use crate::text::same_text;
use crate::views::{NodeCondition, NodeView, PodView};

verus! {

/// The label that a check gives to one item.
#[derive(Clone, Copy, Debug, PartialEq, Eq, Structural)]
pub enum Health {
    Healthy,
    Unhealthy,
}

/// How many items of a listing were found healthy and how many were not.
#[derive(Clone, Copy, Debug, PartialEq, Eq, Structural)]
pub struct Summary {
    pub healthy: usize,
    pub unhealthy: usize,
}

/// A condition that makes its node ready: type `Ready` with status `True`.
pub open spec fn condition_is_ready(c: NodeCondition) -> bool {
    c.type_@ == "Ready"@ && c.status@ == "True"@
}

/// Some condition of the list makes the node ready.
pub open spec fn any_ready(conditions: Seq<NodeCondition>) -> bool {
    exists|i: int| 0 <= i < conditions.len() && condition_is_ready(#[trigger] conditions[i])
}

/// A node is ready iff it has a status block with a condition list in which
/// some condition has type `Ready` and status `True`.
pub open spec fn node_ready(node: NodeView) -> bool {
    match node.status {
        Some(status) => match status.conditions {
            Some(conditions) => any_ready(conditions@),
            None => false,
        },
        None => false,
    }
}

/// The label of a node: healthy iff ready.
pub open spec fn node_health(node: NodeView) -> Health {
    if node_ready(node) {
        Health::Healthy
    } else {
        Health::Unhealthy
    }
}

/// The phase that is shown for a pod: its own, or `Unknown` where the status
/// block or the phase in it is absent.
pub open spec fn pod_phase_text(pod: PodView) -> Seq<char> {
    match pod.status {
        Some(status) => match status.phase {
            Some(phase) => phase@,
            None => "Unknown"@,
        },
        None => "Unknown"@,
    }
}

/// The label of a pod: healthy iff the phase shown for it is `Running`.
pub open spec fn pod_health(pod: PodView) -> Health {
    if pod_phase_text(pod) == "Running"@ {
        Health::Healthy
    } else {
        Health::Unhealthy
    }
}

/// The number of `Healthy` labels in a sequence.
pub open spec fn healthy_count(labels: Seq<Health>) -> nat
    decreases labels.len(),
{
    if labels.len() == 0 {
        0
    } else {
        healthy_count(labels.drop_last()) + if labels.last() == Health::Healthy {
            1nat
        } else {
            0nat
        }
    }
}

/// The number of `Unhealthy` labels in a sequence.
pub open spec fn unhealthy_count(labels: Seq<Health>) -> nat
    decreases labels.len(),
{
    if labels.len() == 0 {
        0
    } else {
        unhealthy_count(labels.drop_last()) + if labels.last() == Health::Unhealthy {
            1nat
        } else {
            0nat
        }
    }
}

/// Every label is counted once: the healthy and the unhealthy together are
/// as many as the labels.
pub proof fn counts_cover_all(labels: Seq<Health>)
    ensures
        healthy_count(labels) + unhealthy_count(labels) == labels.len(),
    decreases labels.len(),
{
    if labels.len() > 0 {
        counts_cover_all(labels.drop_last());
    }
}

/// A node whose condition list holds, at any place, a condition of type
/// `Ready` and status `True` is healthy, whatever else the list holds.
pub proof fn ready_node_is_healthy(node: NodeView, i: int)
    requires
        node.status matches Some(status) && status.conditions matches Some(conditions) && 0 <= i
            < conditions@.len() && conditions@[i].type_@ == "Ready"@ && conditions@[i].status@
            == "True"@,
    ensures
        node_health(node) == Health::Healthy,
{
    let conditions = node.status->Some_0.conditions->Some_0;
    assert(condition_is_ready(conditions@[i]));
}

/// Every other node is unhealthy: one without a status block, without a
/// condition list, with an empty list, or with a list in which no condition
/// has both type `Ready` and status `True`.
pub proof fn unready_node_is_unhealthy(node: NodeView)
    requires
        node.status matches Some(status) && status.conditions matches Some(conditions)
            ==> forall|i: int|
            0 <= i < conditions@.len() ==> !((#[trigger] conditions@[i]).type_@ == "Ready"@
                && conditions@[i].status@ == "True"@),
    ensures
        node_health(node) == Health::Unhealthy,
{
}

/// The words `Running` and `Unknown` differ.
pub proof fn unknown_is_not_running()
    ensures
        "Unknown"@ != "Running"@,
{
    reveal_strlit("Unknown");
    reveal_strlit("Running");
    assert("Unknown"@[0] == 'U');
    assert("Running"@[0] == 'R');
}

/// A pod is healthy iff its status block holds the phase `Running`. With
/// any other phase, with no phase, or with no status block, it is unhealthy;
/// where the phase is absent, `Unknown` is shown for it.
pub proof fn pod_healthy_iff_running(pod: PodView)
    ensures
        pod_health(pod) == Health::Healthy <==> (pod.status matches Some(status)
            && status.phase matches Some(phase) && phase@ == "Running"@),
        pod.status is None ==> pod_phase_text(pod) == "Unknown"@ && pod_health(pod)
            == Health::Unhealthy,
        pod.status matches Some(status) && status.phase is None ==> pod_phase_text(pod)
            == "Unknown"@ && pod_health(pod) == Health::Unhealthy,
{
    unknown_is_not_running();
}

/// Tells whether one condition has type `Ready` and status `True`.
pub fn is_ready_condition(c: &NodeCondition) -> (ready: bool)
    ensures
        ready == condition_is_ready(*c),
{
    same_text(c.type_.as_str(), "Ready") && same_text(c.status.as_str(), "True")
}

/// Tells whether a condition list holds a `Ready` condition of status `True`.
pub fn has_ready_condition(conditions: &Vec<NodeCondition>) -> (found: bool)
    ensures
        found == any_ready(conditions@),
{
    let mut i: usize = 0;
    while i < conditions.len()
        invariant
            i <= conditions.len(),
            forall|j: int| 0 <= j < i ==> !condition_is_ready(#[trigger] conditions@[j]),
        decreases conditions.len() - i,
    {
        if is_ready_condition(&conditions[i]) {
            return true;
        }
        i += 1;
    }
    false
}

/// Classifies a node. A node without a status block, or without a condition
/// list, is unhealthy.
pub fn classify_node(node: &NodeView) -> (label: Health)
    ensures
        label == node_health(*node),
{
    let ready = match &node.status {
        Some(status) => match &status.conditions {
            Some(conditions) => has_ready_condition(conditions),
            None => false,
        },
        None => false,
    };
    if ready {
        Health::Healthy
    } else {
        Health::Unhealthy
    }
}

/// The phase to show for a pod: its own, or `Unknown` where it has none.
pub fn pod_phase(pod: &PodView) -> (phase: String)
    ensures
        phase@ == pod_phase_text(*pod),
{
    match &pod.status {
        Some(status) => match &status.phase {
            Some(phase) => phase.clone(),
            None => "Unknown".to_owned(),
        },
        None => "Unknown".to_owned(),
    }
}

/// Classifies a pod by the phase shown for it.
pub fn classify_pod(pod: &PodView) -> (label: Health)
    ensures
        label == pod_health(*pod),
{
    let phase = pod_phase(pod);
    if same_text(phase.as_str(), "Running") {
        Health::Healthy
    } else {
        Health::Unhealthy
    }
}

/// Counts the labels of a listing.
pub fn tally(labels: &Vec<Health>) -> (summary: Summary)
    ensures
        summary.healthy == healthy_count(labels@),
        summary.unhealthy == unhealthy_count(labels@),
        summary.healthy + summary.unhealthy == labels.len(),
{
    let mut healthy: usize = 0;
    let mut unhealthy: usize = 0;
    let mut i: usize = 0;
    while i < labels.len()
        invariant
            i <= labels.len(),
            healthy == healthy_count(labels@.take(i as int)),
            unhealthy == unhealthy_count(labels@.take(i as int)),
            healthy + unhealthy == i,
        decreases labels.len() - i,
    {
        proof {
            assert(labels@.take(i + 1).drop_last() =~= labels@.take(i as int));
        }
        if labels[i] == Health::Healthy {
            healthy += 1;
        } else {
            unhealthy += 1;
        }
        i += 1;
    }
    proof {
        assert(labels@.take(labels.len() as int) =~= labels@);
    }
    Summary { healthy, unhealthy }
}

} // verus!
