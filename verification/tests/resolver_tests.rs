use envrun::model::{Project, Resolution, RunError, Service, ServiceOrPlugins};
use envrun::resolver::{resolve_source, service_from_choice};

fn svc(id: &str, name: &str) -> Service {
    Service { id: id.to_string(), name: name.to_string() }
}

fn plugin(id: &str) -> envrun::model::Plugin {
    envrun::model::Plugin { id: id.to_string() }
}

fn project(services: Vec<Service>, plugins: Vec<envrun::model::Plugin>) -> Project {
    Project { id: "proj".to_string(), services, plugins, environments: Vec::new() }
}

fn expect_service(r: Result<Resolution, RunError>) -> String {
    match r {
        Ok(Resolution::Source(ServiceOrPlugins::Service(id))) => id,
        other => panic!("expected a service source, got {:?}", other),
    }
}

#[test]
fn sole_service_selected_without_prompt() {
    let p = project(vec![svc("s1", "api")], vec![plugin("pg")]);
    let id = expect_service(resolve_source(&p, None, None, false));
    assert_eq!(id, "s1");
    let id = expect_service(resolve_source(&p, None, None, true));
    assert_eq!(id, "s1");
}

#[test]
fn zero_services_selects_all_plugins_in_order() {
    let p = project(Vec::new(), vec![plugin("pg"), plugin("redis")]);
    match resolve_source(&p, None, None, false) {
        Ok(Resolution::Source(ServiceOrPlugins::Plugins(ids))) => {
            assert_eq!(ids, vec!["pg".to_string(), "redis".to_string()]);
        }
        other => panic!("expected a plugins source, got {:?}", other),
    }
}

#[test]
fn zero_services_zero_plugins_selects_empty_plugins() {
    let p = project(Vec::new(), Vec::new());
    match resolve_source(&p, None, None, false) {
        Ok(Resolution::Source(ServiceOrPlugins::Plugins(ids))) => assert!(ids.is_empty()),
        other => panic!("expected a plugins source, got {:?}", other),
    }
}

#[test]
fn explicit_service_matched_by_name() {
    let p = project(vec![svc("s1", "api"), svc("s2", "worker")], Vec::new());
    let id = expect_service(resolve_source(&p, None, Some("worker".to_string()), false));
    assert_eq!(id, "s2");
}

#[test]
fn explicit_service_matched_by_id() {
    let p = project(vec![svc("s1", "api"), svc("s2", "worker")], Vec::new());
    let id = expect_service(resolve_source(&p, None, Some("s2".to_string()), false));
    assert_eq!(id, "s2");
}

#[test]
fn explicit_service_unknown_fails() {
    let p = project(vec![svc("s1", "api")], Vec::new());
    match resolve_source(&p, None, Some("db".to_string()), true) {
        Err(e) => assert_eq!(e, RunError::ServiceNotFound),
        other => panic!("expected an error, got {:?}", other),
    }
}

#[test]
fn explicit_service_first_match_wins_on_duplicate_names() {
    let p = project(vec![svc("s1", "api"), svc("s2", "api")], Vec::new());
    let id = expect_service(resolve_source(&p, None, Some("api".to_string()), false));
    assert_eq!(id, "s1");
}

#[test]
fn explicit_service_overrides_linked_default() {
    let p = project(vec![svc("s1", "api"), svc("s2", "worker")], Vec::new());
    let id = expect_service(resolve_source(
        &p,
        Some("s1".to_string()),
        Some("worker".to_string()),
        false,
    ));
    assert_eq!(id, "s2");
}

#[test]
fn linked_default_used_without_validation() {
    let p = project(vec![svc("s1", "api"), svc("s2", "worker")], Vec::new());
    let id = expect_service(resolve_source(&p, Some("gone".to_string()), None, false));
    assert_eq!(id, "gone");
}

#[test]
fn multiple_services_without_terminal_is_ambiguous() {
    let p = project(vec![svc("s1", "api"), svc("s2", "worker")], Vec::new());
    match resolve_source(&p, None, None, false) {
        Err(e) => assert_eq!(e, RunError::AmbiguousServiceSelection),
        other => panic!("expected an error, got {:?}", other),
    }
}

#[test]
fn multiple_services_on_terminal_asks_for_a_choice() {
    let p = project(vec![svc("s1", "api"), svc("s2", "worker")], Vec::new());
    assert!(matches!(resolve_source(&p, None, None, true), Ok(Resolution::Prompt)));
    match service_from_choice(&p, 1) {
        ServiceOrPlugins::Service(id) => assert_eq!(id, "s2"),
        other => panic!("expected a service source, got {:?}", other),
    }
}
