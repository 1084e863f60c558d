use kubeai_doctor::health::{
    classify_node, classify_pod, has_ready_condition, is_ready_condition, pod_phase, tally,
    Health, Summary,
};
use kubeai_doctor::report::{
    check_events, check_nodes, check_pods, check_services, event_message, EventEntry, NodeEntry,
    PodEntry,
};
use kubeai_doctor::lines::counts;
use kubeai_doctor::views::{
    EventView, NodeCondition, NodeStatus, NodeView, PodStatus, PodView, ServiceView,
};

fn condition(type_: &str, status: &str) -> NodeCondition {
    NodeCondition { type_: type_.to_string(), status: status.to_string() }
}

fn node(name: &str, conditions: Option<Vec<NodeCondition>>) -> NodeView {
    NodeView { name: name.to_string(), status: Some(NodeStatus { conditions }) }
}

fn pod(name: &str, phase: Option<&str>) -> PodView {
    PodView {
        name: name.to_string(),
        status: Some(PodStatus { phase: phase.map(|p| p.to_string()) }),
    }
}

#[test]
fn ready_true_condition_is_ready() {
    assert!(is_ready_condition(&condition("Ready", "True")));
    assert!(!is_ready_condition(&condition("Ready", "False")));
    assert!(!is_ready_condition(&condition("Ready", "Unknown")));
    assert!(!is_ready_condition(&condition("MemoryPressure", "True")));
    assert!(!is_ready_condition(&condition("ready", "True")));
    assert!(!is_ready_condition(&condition("Ready", "true")));
    assert!(!is_ready_condition(&condition("", "")));
}

#[test]
fn ready_condition_is_found_anywhere_in_the_list() {
    let first = vec![condition("Ready", "True"), condition("DiskPressure", "False")];
    let last = vec![
        condition("MemoryPressure", "False"),
        condition("DiskPressure", "False"),
        condition("Ready", "True"),
    ];
    let none = vec![condition("MemoryPressure", "True"), condition("Ready", "False")];
    let split = vec![condition("Ready", "False"), condition("Other", "True")];
    assert!(has_ready_condition(&first));
    assert!(has_ready_condition(&last));
    assert!(!has_ready_condition(&none));
    assert!(!has_ready_condition(&split));
    assert!(!has_ready_condition(&Vec::new()));
}

#[test]
fn node_with_ready_true_is_healthy() {
    let n = node("a", Some(vec![condition("DiskPressure", "False"), condition("Ready", "True")]));
    assert_eq!(classify_node(&n), Health::Healthy);
}

#[test]
fn node_without_ready_true_is_unhealthy() {
    assert_eq!(
        classify_node(&node("a", Some(vec![condition("Ready", "False")]))),
        Health::Unhealthy
    );
    assert_eq!(
        classify_node(&node("a", Some(vec![condition("Ready", "Unknown")]))),
        Health::Unhealthy
    );
    assert_eq!(
        classify_node(&node("a", Some(vec![condition("PIDPressure", "True")]))),
        Health::Unhealthy
    );
}

#[test]
fn node_with_empty_condition_list_is_unhealthy() {
    assert_eq!(classify_node(&node("a", Some(Vec::new()))), Health::Unhealthy);
}

#[test]
fn node_without_condition_list_is_unhealthy() {
    assert_eq!(classify_node(&node("a", None)), Health::Unhealthy);
}

#[test]
fn node_without_status_block_is_unhealthy() {
    let n = NodeView { name: "a".to_string(), status: None };
    assert_eq!(classify_node(&n), Health::Unhealthy);
}

#[test]
fn running_pod_is_healthy() {
    let p = pod("web", Some("Running"));
    assert_eq!(classify_pod(&p), Health::Healthy);
    assert_eq!(pod_phase(&p), "Running");
}

#[test]
fn pod_in_another_phase_is_unhealthy() {
    for phase in ["Pending", "Succeeded", "Failed", "Unknown", "running", "Running ", ""] {
        let p = pod("web", Some(phase));
        assert_eq!(classify_pod(&p), Health::Unhealthy);
        assert_eq!(pod_phase(&p), phase);
    }
}

#[test]
fn pod_without_phase_is_unknown_and_unhealthy() {
    let p = pod("web", None);
    assert_eq!(pod_phase(&p), "Unknown");
    assert_eq!(classify_pod(&p), Health::Unhealthy);
}

#[test]
fn pod_without_status_block_is_unknown_and_unhealthy() {
    let p = PodView { name: "web".to_string(), status: None };
    assert_eq!(pod_phase(&p), "Unknown");
    assert_eq!(classify_pod(&p), Health::Unhealthy);
}

#[test]
fn tally_counts_each_label_once() {
    let labels = vec![
        Health::Healthy,
        Health::Unhealthy,
        Health::Healthy,
        Health::Healthy,
        Health::Unhealthy,
    ];
    let summary = tally(&labels);
    assert_eq!(summary, Summary { healthy: 3, unhealthy: 2 });
    assert_eq!(summary.healthy + summary.unhealthy, labels.len());
}

#[test]
fn tally_of_nothing_is_zero() {
    assert_eq!(tally(&Vec::new()), Summary { healthy: 0, unhealthy: 0 });
}

#[test]
fn three_nodes_two_ready_one_not() {
    let nodes = vec![
        node("n1", Some(vec![condition("Ready", "True")])),
        node("n2", Some(vec![condition("Ready", "False")])),
        node("n3", Some(vec![condition("Ready", "True")])),
    ];
    let report = check_nodes(&nodes);
    assert_eq!(report.summary, Summary { healthy: 2, unhealthy: 1 });
    assert_eq!(counts(&report.summary), "2 healthy, 1 unhealthy");
    assert_eq!(
        report.entries,
        vec![
            NodeEntry { name: "n1".to_string(), health: Health::Healthy },
            NodeEntry { name: "n2".to_string(), health: Health::Unhealthy },
            NodeEntry { name: "n3".to_string(), health: Health::Healthy },
        ]
    );
}

#[test]
fn node_counts_add_up_to_the_listing() {
    let nodes = vec![
        node("n1", None),
        NodeView { name: "n2".to_string(), status: None },
        node("n3", Some(vec![condition("Ready", "True")])),
        node("n4", Some(Vec::new())),
    ];
    let report = check_nodes(&nodes);
    assert_eq!(report.entries.len(), 4);
    assert_eq!(report.summary.healthy, 1);
    assert_eq!(report.summary.unhealthy, 3);
    assert_eq!(report.summary.healthy + report.summary.unhealthy, nodes.len());
}

#[test]
fn empty_node_listing_gives_empty_report() {
    let report = check_nodes(&Vec::new());
    assert!(report.entries.is_empty());
    assert_eq!(report.summary, Summary { healthy: 0, unhealthy: 0 });
}

#[test]
fn one_pod_with_phase_omitted() {
    let pods = vec![pod("db-0", None)];
    let report = check_pods(&pods);
    assert_eq!(
        report.entries,
        vec![PodEntry {
            name: "db-0".to_string(),
            phase: "Unknown".to_string(),
            health: Health::Unhealthy,
        }]
    );
    assert_eq!(report.summary, Summary { healthy: 0, unhealthy: 1 });
}

#[test]
fn pod_counts_add_up_to_the_listing() {
    let pods = vec![
        pod("a", Some("Running")),
        pod("b", Some("Pending")),
        pod("c", None),
        PodView { name: "d".to_string(), status: None },
        pod("e", Some("Running")),
    ];
    let report = check_pods(&pods);
    assert_eq!(report.summary, Summary { healthy: 2, unhealthy: 3 });
    assert_eq!(report.summary.healthy + report.summary.unhealthy, pods.len());
    assert_eq!(report.entries[1].phase, "Pending");
    assert_eq!(report.entries[3].phase, "Unknown");
    assert_eq!(report.entries[4].health, Health::Healthy);
    assert_eq!(report.entries[4].name, "e");
}

#[test]
fn services_are_listed_by_name_in_order() {
    let services = vec![
        ServiceView { name: "kubernetes".to_string() },
        ServiceView { name: "dns".to_string() },
    ];
    assert_eq!(check_services(&services), vec!["kubernetes".to_string(), "dns".to_string()]);
    assert!(check_services(&Vec::new()).is_empty());
}

#[test]
fn event_message_defaults_to_placeholder() {
    let with = EventView { name: "e1".to_string(), message: Some("Pulled image".to_string()) };
    let without = EventView { name: "e2".to_string(), message: None };
    let empty = EventView { name: "e3".to_string(), message: Some(String::new()) };
    assert_eq!(event_message(&with), "Pulled image");
    assert_eq!(event_message(&without), "No message");
    assert_eq!(event_message(&empty), "");
}

#[test]
fn events_are_listed_with_their_messages() {
    let events = vec![
        EventView { name: "e1".to_string(), message: Some("Scheduled".to_string()) },
        EventView { name: "e2".to_string(), message: None },
    ];
    assert_eq!(
        check_events(&events),
        vec![
            EventEntry { name: "e1".to_string(), message: "Scheduled".to_string() },
            EventEntry { name: "e2".to_string(), message: "No message".to_string() },
        ]
    );
}
