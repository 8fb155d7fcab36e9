use fakos::metadata::{format_metadata, Metadata};
use fakos::sorted_map::SortedMap;
use fakos::resources::ContainerEnvVars;
use fakos::cells::format_container_and_env_vars;
use fakos::EnvVarsFilter;

fn meta(pairs: &[(&str, &str)]) -> Metadata {
    let mut m = SortedMap::new();
    for (k, v) in pairs {
        m.insert(k.to_string(), v.to_string());
    }
    m
}

fn containers(list: &[(&str, &[(&str, &str)])]) -> ContainerEnvVars {
    let mut c = SortedMap::new();
    for (name, vars) in list {
        c.insert(name.to_string(), meta(vars));
    }
    c
}

#[test]
fn empty_metadata_is_none() {
    assert_eq!(format_metadata(&SortedMap::new()), "<none>");
}

#[test]
fn metadata_lines_sorted_by_key() {
    let m = meta(&[("zone", "b"), ("app", "web"), ("tier", "front")]);
    assert_eq!(format_metadata(&m), "app=web\ntier=front\nzone=b");
}

#[test]
fn metadata_same_text_for_any_insertion_order() {
    let a = meta(&[("a", "1"), ("b", "2"), ("c", "3")]);
    let b = meta(&[("c", "3"), ("a", "1"), ("b", "2")]);
    assert_eq!(format_metadata(&a), format_metadata(&b));
    assert_eq!(format_metadata(&a).lines().count(), 3);
}

#[test]
fn metadata_insert_replaces_value() {
    let m = meta(&[("a", "1"), ("a", "2")]);
    assert_eq!(m.len(), 1);
    assert_eq!(format_metadata(&m), "a=2");
}

#[test]
fn sorted_map_orders_by_code_point() {
    let m = meta(&[("b", "x"), ("B", "y"), ("ab", "z"), ("a", "w")]);
    let keys: Vec<&str> = m.entries().iter().map(|e| e.0.as_str()).collect();
    assert_eq!(keys, vec!["B", "a", "ab", "b"]);
    assert!(!m.is_empty());
}

#[test]
fn filter_selects_matching_container_only() {
    let c = containers(&[("sidecar", &[("FOO", "1")]), ("main", &[("BAR", "2"), ("BAZ", "3")])]);
    let f = EnvVarsFilter::parse("main").ok().unwrap();
    let (names, vars) = format_container_and_env_vars(&c, &f);
    assert_eq!(names, "main\n");
    assert_eq!(vars, "BAR=2\nBAZ=3");
    assert_eq!(names.split('\n').count(), vars.split('\n').count());
}

#[test]
fn cells_pad_multi_line_values() {
    let c = containers(&[("app", &[("A", "x\ny"), ("B", "z")]), ("db", &[])]);
    let f = EnvVarsFilter::parse(".*").ok().unwrap();
    let (names, vars) = format_container_and_env_vars(&c, &f);
    assert_eq!(names, "app\n\n\ndb");
    assert_eq!(vars, "A=x\ny\nB=z\n<none>");
    assert_eq!(names.split('\n').count(), vars.split('\n').count());
}

#[test]
fn cells_none_when_no_container_selected() {
    let c = containers(&[("app", &[("A", "1")])]);
    let f = EnvVarsFilter::parse("!app").ok().unwrap();
    assert_eq!(format_container_and_env_vars(&c, &f), ("<none>".to_string(), "<none>".to_string()));
    let empty = containers(&[]);
    assert_eq!(format_container_and_env_vars(&empty, &f), ("<none>".to_string(), "<none>".to_string()));
}

#[test]
fn cells_container_without_env_is_none() {
    let c = containers(&[("init", &[])]);
    let f = EnvVarsFilter::parse("init").ok().unwrap();
    assert_eq!(format_container_and_env_vars(&c, &f), ("init".to_string(), "<none>".to_string()));
}
