use dashboard_copy::channels::ChannelMap;
use dashboard_copy::document::{AlertRule, Dashboard, Fields, NotificationRef, Panel};
use dashboard_copy::notifications::{find_unmapped, map_notifications, MappingError};
use serde_json::Value;

fn bag(key: &str, value: Value) -> Fields {
    let mut fields = Fields::new();
    fields.insert(key.to_string(), value);
    fields
}

fn reference(channel: &str) -> NotificationRef {
    NotificationRef { channel_id: channel.to_string(), rest: bag("note", Value::from(channel)) }
}

fn alerting(channels: &[&str]) -> Panel {
    Panel {
        alert: Some(AlertRule {
            notifications: channels.iter().map(|c| reference(c)).collect(),
            rest: bag("frequency", Value::String("60s".to_string())),
        }),
        rest: bag("title", Value::String("alerting".to_string())),
    }
}

fn quiet() -> Panel {
    Panel { alert: None, rest: bag("title", Value::String("quiet".to_string())) }
}

fn dashboard(panels: Vec<Panel>) -> Dashboard {
    Dashboard {
        id: Some(3),
        uid: "dash-1".to_string(),
        version: 12,
        panels,
        rest: bag("timezone", Value::String("utc".to_string())),
    }
}

fn table(pairs: &[(&str, &str)]) -> ChannelMap {
    let mut map = ChannelMap::new();
    for (from, to) in pairs {
        map.insert(from.to_string(), to.to_string());
    }
    map
}

fn channels(doc: &Dashboard) -> Vec<String> {
    let mut seen = Vec::new();
    for panel in &doc.panels {
        if let Some(rule) = &panel.alert {
            for r in &rule.notifications {
                seen.push(r.channel_id.clone());
            }
        }
    }
    seen
}

#[test]
fn mapped_reference_is_rewritten() {
    let mut doc = dashboard(vec![alerting(&["staging-pager"])]);
    let result = map_notifications(&mut doc, &table(&[("staging-pager", "prod-pager")]));
    assert_eq!(result, Ok(()));
    assert_eq!(channels(&doc), vec!["prod-pager".to_string()]);
}

#[test]
fn unmapped_reference_is_named() {
    let mut doc = dashboard(vec![alerting(&["staging-slack"])]);
    let before = doc.clone();
    let result = map_notifications(&mut doc, &table(&[("staging-pager", "prod-pager")]));
    assert_eq!(result, Err(MappingError { channel_id: "staging-slack".to_string() }));
    assert_eq!(doc, before);
}

#[test]
fn every_reference_is_rewritten_and_nothing_else() {
    let mut doc = dashboard(vec![
        alerting(&["a", "b"]),
        quiet(),
        alerting(&[]),
        alerting(&["b", "c", "a"]),
    ]);
    let before = doc.clone();
    let map = table(&[("a", "A"), ("b", "B"), ("c", "C"), ("unused", "U")]);
    assert_eq!(map_notifications(&mut doc, &map), Ok(()));
    assert_eq!(channels(&doc), vec!["A", "B", "B", "C", "A"]);
    assert_eq!(doc.id, before.id);
    assert_eq!(doc.uid, before.uid);
    assert_eq!(doc.version, before.version);
    assert_eq!(doc.rest, before.rest);
    assert_eq!(doc.panels.len(), before.panels.len());
    for (after, earlier) in doc.panels.iter().zip(before.panels.iter()) {
        assert_eq!(after.rest, earlier.rest);
        match (&after.alert, &earlier.alert) {
            (None, None) => {}
            (Some(a), Some(e)) => {
                assert_eq!(a.rest, e.rest);
                assert_eq!(a.notifications.len(), e.notifications.len());
                for (x, y) in a.notifications.iter().zip(e.notifications.iter()) {
                    assert_eq!(x.rest, y.rest);
                }
            }
            _ => panic!("a panel gained or lost its alert rule"),
        }
    }
}

#[test]
fn failure_leaves_earlier_references_untouched() {
    let mut doc = dashboard(vec![alerting(&["a", "b"]), alerting(&["missing", "a"])]);
    let before = doc.clone();
    let result = map_notifications(&mut doc, &table(&[("a", "A"), ("b", "B")]));
    assert_eq!(result, Err(MappingError { channel_id: "missing".to_string() }));
    assert_eq!(doc, before);
}

#[test]
fn first_unmapped_in_panel_order_is_reported() {
    let mut doc = dashboard(vec![
        quiet(),
        alerting(&["a", "second-gap"]),
        alerting(&["first-in-later-panel"]),
    ]);
    let result = map_notifications(&mut doc, &table(&[("a", "A")]));
    assert_eq!(result, Err(MappingError { channel_id: "second-gap".to_string() }));

    let mut doc = dashboard(vec![alerting(&["x", "a", "y"]), alerting(&["z"])]);
    let result = map_notifications(&mut doc, &table(&[("a", "A")]));
    assert_eq!(result, Err(MappingError { channel_id: "x".to_string() }));
}

#[test]
fn dashboard_without_alerts_passes_unchanged() {
    let mut doc = dashboard(vec![quiet(), quiet()]);
    let before = doc.clone();
    assert_eq!(map_notifications(&mut doc, &ChannelMap::new()), Ok(()));
    assert_eq!(doc, before);
    assert_eq!(map_notifications(&mut doc, &table(&[("a", "A")])), Ok(()));
    assert_eq!(doc, before);
}

#[test]
fn alert_without_notifications_passes_unchanged() {
    let mut doc = dashboard(vec![alerting(&[]), quiet(), alerting(&[])]);
    let before = doc.clone();
    assert_eq!(map_notifications(&mut doc, &ChannelMap::new()), Ok(()));
    assert_eq!(doc, before);
}

#[test]
fn dashboard_without_panels_passes_unchanged() {
    let mut doc = dashboard(vec![]);
    let before = doc.clone();
    assert_eq!(map_notifications(&mut doc, &table(&[("a", "A")])), Ok(()));
    assert_eq!(doc, before);
}

#[test]
fn empty_table_fails_on_present_reference() {
    let mut doc = dashboard(vec![alerting(&["staging-pager"])]);
    let before = doc.clone();
    let result = map_notifications(&mut doc, &ChannelMap::new());
    assert_eq!(result, Err(MappingError { channel_id: "staging-pager".to_string() }));
    assert_eq!(doc, before);
}

#[test]
fn lookup_matches_whole_identifier_only() {
    let map = table(&[("pager", "prod-pager")]);
    for near in ["Pager", "pager ", "page", "pagers", ""] {
        let mut doc = dashboard(vec![alerting(&[near])]);
        let result = map_notifications(&mut doc, &map);
        assert_eq!(result, Err(MappingError { channel_id: near.to_string() }));
    }
}

#[test]
fn mapping_is_applied_once_not_chained() {
    let mut doc = dashboard(vec![alerting(&["a", "b"])]);
    assert_eq!(map_notifications(&mut doc, &table(&[("a", "b"), ("b", "c")])), Ok(()));
    assert_eq!(channels(&doc), vec!["b", "c"]);
}

#[test]
fn find_unmapped_reports_without_changing() {
    let doc = dashboard(vec![alerting(&["a", "gap"]), alerting(&["other-gap"])]);
    assert_eq!(find_unmapped(&doc, &table(&[("a", "A")])), Some("gap".to_string()));
    assert_eq!(
        find_unmapped(&doc, &table(&[("a", "A"), ("gap", "G"), ("other-gap", "O")])),
        None
    );
    assert_eq!(find_unmapped(&dashboard(vec![quiet()]), &ChannelMap::new()), None);
}

#[test]
fn table_insert_get_and_replace() {
    let mut map = ChannelMap::new();
    assert_eq!(map.len(), 0);
    assert_eq!(map.get("a"), None);
    assert!(!map.contains("a"));
    map.insert("a".to_string(), "A".to_string());
    map.insert("b".to_string(), "B".to_string());
    assert_eq!(map.len(), 2);
    assert_eq!(map.get("a"), Some(&"A".to_string()));
    assert!(map.contains("b"));
    assert!(!map.contains("A"));
    map.insert("a".to_string(), "Z".to_string());
    assert_eq!(map.len(), 2);
    assert_eq!(map.get("a"), Some(&"Z".to_string()));
    assert_eq!(map.get("b"), Some(&"B".to_string()));
}
