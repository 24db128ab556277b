use envrun::model::ServiceOrPlugins;
use envrun::variables::{merge_all, sources_to_fetch, VariableMapping};

fn mapping(pairs: &[(&str, &str)]) -> VariableMapping {
    let mut m = VariableMapping::new();
    for (k, v) in pairs {
        m.set(k.to_string(), v.to_string());
    }
    m
}

#[test]
fn set_then_get_returns_the_value() {
    let m = mapping(&[("HOST", "localhost"), ("PORT", "5432")]);
    assert_eq!(m.get(&"HOST".to_string()), Some(&"localhost".to_string()));
    assert_eq!(m.get(&"PORT".to_string()), Some(&"5432".to_string()));
    assert_eq!(m.get(&"USER".to_string()), None);
}

#[test]
fn set_overwrites_an_earlier_value() {
    let m = mapping(&[("A", "1"), ("A", "2")]);
    assert_eq!(m.get(&"A".to_string()), Some(&"2".to_string()));
}

#[test]
fn merging_two_mappings_later_wins() {
    let mut first = mapping(&[("A", "1")]);
    let second = mapping(&[("A", "2"), ("B", "3")]);
    first.merge_from(&second);
    assert_eq!(first.get(&"A".to_string()), Some(&"2".to_string()));
    assert_eq!(first.get(&"B".to_string()), Some(&"3".to_string()));
    assert_eq!(first.get(&"C".to_string()), None);
}

#[test]
fn merge_all_folds_in_list_order() {
    let merged = merge_all(&vec![
        mapping(&[("A", "1"), ("B", "1")]),
        mapping(&[("A", "2"), ("C", "2")]),
        mapping(&[("C", "3")]),
    ]);
    assert_eq!(merged.get(&"A".to_string()), Some(&"2".to_string()));
    assert_eq!(merged.get(&"B".to_string()), Some(&"1".to_string()));
    assert_eq!(merged.get(&"C".to_string()), Some(&"3".to_string()));
}

#[test]
fn merge_all_of_nothing_is_empty() {
    let merged = merge_all(&Vec::new());
    assert_eq!(merged.get(&"A".to_string()), None);
}

#[test]
fn a_service_source_demands_one_fetch() {
    let source = ServiceOrPlugins::Service("s1".to_string());
    assert_eq!(sources_to_fetch(&source), vec!["s1".to_string()]);
}

#[test]
fn a_plugins_source_demands_one_fetch_per_plugin_in_order() {
    let source = ServiceOrPlugins::Plugins(vec!["pg".to_string(), "redis".to_string()]);
    assert_eq!(sources_to_fetch(&source), vec!["pg".to_string(), "redis".to_string()]);
    assert!(sources_to_fetch(&ServiceOrPlugins::Plugins(Vec::new())).is_empty());
}

#[test]
fn into_pairs_keeps_every_binding() {
    let m = mapping(&[("A", "1"), ("B", "2")]);
    let pairs = m.into_pairs();
    assert!(pairs.contains(&("A".to_string(), "1".to_string())));
    assert!(pairs.contains(&("B".to_string(), "2".to_string())));
}
