use fakos::cluster::{access_error, choose_kubeconfig, default_kubeconfig_path};
use fakos::{GetResources, K8sError, OutputFormat, TableDisplayError};

fn pods_cmd(all: bool, pod: Option<&str>) -> GetResources {
    GetResources::Pods {
        pod_name: pod.map(|p| p.to_string()),
        namespace: "kube-system".to_string(),
        node: None,
        all_namespaces: all,
        output: OutputFormat::Normal,
        labels: false,
        annotations: false,
        env_vars: None,
        kubeconfig: Some("/tmp/kc".to_string()),
    }
}

fn nodes_cmd() -> GetResources {
    GetResources::Nodes { node_name: None, output: OutputFormat::Wide, labels: true, annotations: false, kubeconfig: None }
}

#[test]
fn command_accessors() {
    let p = pods_cmd(true, Some("x"));
    assert_eq!(p.get_namespace(), "kube-system");
    assert!(p.is_all_namespaces());
    assert_eq!(p.get_kubeconfig_path(), Some("/tmp/kc".to_string()));
    assert!(p.pod_name_across_namespaces());
    assert!(!pods_cmd(false, Some("x")).pod_name_across_namespaces());
    assert!(!pods_cmd(true, None).pod_name_across_namespaces());
    let n = nodes_cmd();
    assert_eq!(n.get_namespace(), "default");
    assert!(!n.is_all_namespaces());
    assert_eq!(n.get_kubeconfig_path(), None);
    assert!(!n.pod_name_across_namespaces());
}

#[test]
fn kubeconfig_choice() {
    assert_eq!(default_kubeconfig_path("/home/u"), "/home/u/.kube/config");
    assert!(matches!(choose_kubeconfig(Some("/x".to_string()), None, false), Ok(p) if p == "/x"));
    assert!(matches!(choose_kubeconfig(None, Some("/h".to_string()), true), Ok(p) if p == "/h/.kube/config"));
    match choose_kubeconfig(None, Some("/h".to_string()), false) {
        Err(K8sError::ConfigError(m)) => assert_eq!(m, "No kubeconfig found at default location"),
        _ => panic!("expected a configuration error"),
    }
    match choose_kubeconfig(None, None, true) {
        Err(K8sError::ConfigError(m)) => assert_eq!(m, "Failed to get HOME directory"),
        _ => panic!("expected a configuration error"),
    }
}

#[test]
fn access_errors() {
    let e = access_error(Some(("pods is forbidden".to_string(), "Forbidden".to_string())));
    assert_eq!(e.to_text(), "API error: pods is forbidden (Forbidden)");
    let c = access_error(None);
    assert_eq!(c.to_text(), "Connection error: Failed to connect to Kubernetes cluster");
    assert_eq!(K8sError::ResourceNotFound("x".to_string()).to_text(), "Resource not found: x");
    assert_eq!(K8sError::ConfigError("y".to_string()).to_text(), "Configuration error: y");
}

#[test]
fn table_error_text() {
    assert_eq!(TableDisplayError::new("bad").to_text(), "Table display error: bad");
}
