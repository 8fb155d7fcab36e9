use fakos::metadata::Metadata;
use fakos::resources::{extract_nodes, extract_pods, node_status, NodeStatus, RawCondition, RawNode, RawPod};
use fakos::sorted_map::SortedMap;
use fakos::table::{node_table, pod_table};
use fakos::{display_nodes, display_pods, EnvVarsFilter, FarosNode, FarosPod, OutputFormat};

fn meta(pairs: &[(&str, &str)]) -> Metadata {
    let mut m = SortedMap::new();
    for (k, v) in pairs {
        m.insert(k.to_string(), v.to_string());
    }
    m
}

fn pod(name: &str, namespace: &str, node: Option<&str>) -> FarosPod {
    FarosPod {
        name: name.to_string(),
        namespace: namespace.to_string(),
        node: node.map(|n| n.to_string()),
        labels: SortedMap::new(),
        annotations: SortedMap::new(),
        container_env_vars: SortedMap::new(),
    }
}

fn raw_pod(name: Option<&str>, namespace: &str, node: Option<&str>) -> RawPod {
    RawPod {
        name: name.map(|s| s.to_string()),
        namespace: Some(namespace.to_string()),
        node_name: node.map(|s| s.to_string()),
        labels: None,
        annotations: Some(meta(&[("k", "v")])),
        container_env_vars: SortedMap::new(),
    }
}

fn cond(t: &str, s: &str) -> RawCondition {
    RawCondition { type_: t.to_string(), status: s.to_string() }
}

fn raw_node(name: &str, conditions: Option<Vec<RawCondition>>) -> RawNode {
    RawNode { name: Some(name.to_string()), labels: Some(meta(&[("role", "worker")])), annotations: None, conditions }
}

fn cell_rows(rows: Vec<Vec<String>>) -> Vec<Vec<String>> {
    rows
}

fn strings(cells: &[&str]) -> Vec<String> {
    cells.iter().map(|c| c.to_string()).collect()
}

#[test]
fn two_pods_in_default_namespace() {
    let pods = vec![pod("web-1", "default", None), pod("web-2", "default", None)];
    let rows = cell_rows(pod_table(&pods, &OutputFormat::Normal, false, false, true, None));
    assert_eq!(rows, vec![strings(&["NAMESPACE", "POD"]), strings(&["default", "web-1"]), strings(&["default", "web-2"])]);
    let text = display_pods(&pods, &OutputFormat::Normal, false, false, true, None).ok().unwrap().unwrap();
    let lines: Vec<&str> = text.lines().map(|l| l.trim_end()).collect();
    assert_eq!(lines, vec!["NAMESPACE  POD", "default    web-1", "default    web-2"]);
}

#[test]
fn pod_columns_follow_options() {
    let mut p = pod("app-1", "prod", None);
    p.labels = meta(&[("app", "x")]);
    let pods = vec![p];
    let f = EnvVarsFilter::parse("main").ok().unwrap();
    let rows = pod_table(&pods, &OutputFormat::Wide, true, true, false, Some(&f));
    assert_eq!(rows[0], strings(&["POD", "CONTAINERS", "ENV VARS", "LABELS", "ANNOTATIONS", "NODE"]));
    assert_eq!(rows[1], strings(&["app-1", "<none>", "<none>", "app=x", "<none>", "<none>"]));
}

#[test]
fn scenario_env_vars_row() {
    let mut p = pod("app-1", "default", Some("n1"));
    let mut envs = SortedMap::new();
    envs.insert("sidecar".to_string(), meta(&[("FOO", "1")]));
    envs.insert("main".to_string(), meta(&[("BAR", "2"), ("BAZ", "3")]));
    p.container_env_vars = envs;
    let f = EnvVarsFilter::parse("main").ok().unwrap();
    let rows = pod_table(&[p], &OutputFormat::Normal, false, false, false, Some(&f));
    assert_eq!(rows[1], strings(&["app-1", "main\n", "BAR=2\nBAZ=3"]));
}

#[test]
fn no_pods_reports_no_match() {
    let pods: Vec<FarosPod> = Vec::new();
    assert!(matches!(display_pods(&pods, &OutputFormat::Wide, true, true, true, None), Ok(None)));
    let nodes: Vec<FarosNode> = Vec::new();
    assert!(matches!(display_nodes(&nodes, &OutputFormat::Normal, true, false), Ok(None)));
}

#[test]
fn node_status_from_conditions() {
    assert_eq!(node_status(&Some(vec![cond("MemoryPressure", "False"), cond("Ready", "True")])), NodeStatus::Ready);
    assert_eq!(node_status(&Some(vec![cond("Ready", "False")])), NodeStatus::NotReady);
    assert_eq!(node_status(&Some(vec![cond("Ready", "Unknown")])), NodeStatus::NotReady);
    assert_eq!(node_status(&Some(vec![cond("DiskPressure", "True")])), NodeStatus::Unknown);
    assert_eq!(node_status(&Some(vec![])), NodeStatus::Unknown);
    assert_eq!(node_status(&None), NodeStatus::Unknown);
    assert_eq!(node_status(&Some(vec![cond("Ready", "False"), cond("Ready", "True")])), NodeStatus::NotReady);
}

#[test]
fn node_without_ready_condition_is_unknown_and_labels_hidden() {
    let nodes = extract_nodes(vec![raw_node("n1", Some(vec![cond("PIDPressure", "False")]))], None);
    assert_eq!(nodes[0].status, NodeStatus::Unknown);
    let rows = node_table(&nodes, false, false);
    assert_eq!(rows, vec![strings(&["NAME", "STATUS"]), strings(&["n1", "Unknown"])]);
    let with_labels = node_table(&nodes, true, true);
    assert_eq!(with_labels[1], strings(&["n1", "Unknown", "role=worker", "<none>"]));
    let text = display_nodes(&nodes, &OutputFormat::Wide, false, false).ok().unwrap().unwrap();
    assert!(text.contains("Unknown"));
    assert!(text.starts_with("NAME"));
}

#[test]
fn extract_pods_applies_all_filters() {
    let raws = vec![
        raw_pod(Some("a"), "default", Some("n1")),
        raw_pod(Some("b"), "default", Some("n2")),
        raw_pod(None, "default", Some("n1")),
        raw_pod(Some("a"), "other", Some("n1")),
    ];
    let all = extract_pods(raws, None, None);
    assert_eq!(all.len(), 4);
    assert_eq!(all[2].name, "");
    assert_eq!(all[0].node.as_deref(), Some("n1"));
    assert!(all[0].labels.is_empty());
    assert_eq!(all[0].annotations.len(), 1);

    let raws = vec![
        raw_pod(Some("a"), "default", Some("n1")),
        raw_pod(Some("b"), "default", Some("n2")),
        raw_pod(None, "default", Some("n1")),
        raw_pod(Some("a"), "other", Some("n1")),
    ];
    let picked = extract_pods(raws, Some("n1"), None);
    let names: Vec<&str> = picked.iter().map(|p| p.name.as_str()).collect();
    assert_eq!(names, vec!["a", "", "a"]);
    assert_eq!(picked[2].namespace, "other");

    let raws = vec![raw_pod(Some("a"), "default", None), raw_pod(Some("A"), "default", None)];
    let named = extract_pods(raws, None, Some("a"));
    assert_eq!(named.len(), 1);
    assert_eq!(named[0].node, None);
}

#[test]
fn extract_nodes_by_name() {
    let raws = vec![raw_node("n1", None), raw_node("n2", Some(vec![cond("Ready", "True")]))];
    let nodes = extract_nodes(raws, Some("n2"));
    assert_eq!(nodes.len(), 1);
    assert_eq!(nodes[0].name, "n2");
    assert_eq!(nodes[0].status, NodeStatus::Ready);
    assert_eq!(nodes[0].status.to_text(), "Ready");
}

#[test]
fn rendered_table_aligns_multi_line_cells() {
    let mut n = FarosNode {
        name: "node-long".to_string(),
        labels: meta(&[("a", "1"), ("b", "2")]),
        annotations: SortedMap::new(),
        status: NodeStatus::Ready,
    };
    n.annotations.insert("k".to_string(), "v".to_string());
    let text = display_nodes(&[n], &OutputFormat::Normal, true, false).ok().unwrap().unwrap();
    let lines: Vec<&str> = text.lines().map(|l| l.trim_end()).collect();
    assert_eq!(lines, vec!["NAME       STATUS  LABELS", "node-long  Ready   a=1", "                   b=2"]);
}
