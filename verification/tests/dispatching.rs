use kubeai_doctor::dispatch::{
    choose_scope, exit_status, parse_kind, plan, DispatchError, Outcome, Request, ResourceKind,
    Scope,
};

#[test]
fn the_four_words_name_the_four_kinds() {
    assert_eq!(parse_kind("nodes"), Some(ResourceKind::Nodes));
    assert_eq!(parse_kind("pods"), Some(ResourceKind::Pods));
    assert_eq!(parse_kind("services"), Some(ResourceKind::Services));
    assert_eq!(parse_kind("events"), Some(ResourceKind::Events));
}

#[test]
fn other_words_name_no_kind() {
    for word in ["", "node", "Nodes", "PODS", "pods ", " pods", "deployments", "svc", "event"] {
        assert_eq!(parse_kind(word), None);
    }
}

#[test]
fn supplied_namespace_scopes_pods_services_and_events() {
    for kind in [ResourceKind::Pods, ResourceKind::Services, ResourceKind::Events] {
        assert_eq!(
            choose_scope(kind, Some("kube-system")),
            Scope::Namespace("kube-system".to_string())
        );
    }
}

#[test]
fn omitted_namespace_spans_everything() {
    for kind in
        [ResourceKind::Nodes, ResourceKind::Pods, ResourceKind::Services, ResourceKind::Events]
    {
        assert_eq!(choose_scope(kind, None), Scope::All);
    }
}

#[test]
fn nodes_ignore_the_namespace() {
    assert_eq!(choose_scope(ResourceKind::Nodes, Some("default")), Scope::All);
    assert_eq!(
        plan("nodes", Some("default")),
        Ok(Request { kind: ResourceKind::Nodes, scope: Scope::All })
    );
}

#[test]
fn valid_command_gives_one_request() {
    assert_eq!(
        plan("pods", Some("prod")),
        Ok(Request { kind: ResourceKind::Pods, scope: Scope::Namespace("prod".to_string()) })
    );
    assert_eq!(
        plan("services", None),
        Ok(Request { kind: ResourceKind::Services, scope: Scope::All })
    );
    assert_eq!(
        plan("events", Some("")),
        Ok(Request { kind: ResourceKind::Events, scope: Scope::Namespace(String::new()) })
    );
}

#[test]
fn unrecognized_resource_gives_no_request() {
    assert_eq!(plan("deployments", None), Err(DispatchError::InvalidResource));
    assert_eq!(plan("deployments", Some("prod")), Err(DispatchError::InvalidResource));
    assert_eq!(plan("", None), Err(DispatchError::InvalidResource));
    assert_eq!(plan("Pods", Some("prod")), Err(DispatchError::InvalidResource));
}

#[test]
fn invalid_resource_exits_non_zero() {
    assert_eq!(exit_status(Outcome::Rejected(DispatchError::InvalidResource)), 2);
    assert_ne!(exit_status(Outcome::Rejected(DispatchError::InvalidResource)), 0);
}

#[test]
fn only_a_completed_check_exits_zero() {
    assert_eq!(exit_status(Outcome::Completed), 0);
    assert_eq!(exit_status(Outcome::ClusterFailed), 1);
}
