use urdf_viz::{NodeState, Viewer};

type Rgb = [u8; 3];

fn two_links() -> Viewer<u32, Rgb> {
    let mut v: Viewer<u32, Rgb> = Viewer::new();
    v.insert_node("base", 0, [1, 1, 1]);
    v.insert_node("arm", 1, [2, 2, 2]);
    v
}

#[test]
fn highlight_twice_then_reset_restores_original() {
    let mut v = two_links();
    assert_eq!(v.set_temporal_color("arm", [9, 0, 0]), Some(1));
    assert_eq!(v.set_temporal_color("arm", [0, 9, 0]), Some(1));
    assert_eq!(v.get("arm").unwrap().color, [0, 9, 0]);
    assert_eq!(v.reset_temporal_color("arm"), Some((1, [2, 2, 2])));
    assert_eq!(v.get("arm").unwrap().color, [2, 2, 2]);
    assert_eq!(v.get("base").unwrap().color, [1, 1, 1]);
}

#[test]
fn repeated_reset_is_idempotent() {
    let mut v = two_links();
    v.set_temporal_color("base", [5, 5, 5]);
    v.reset_temporal_color("base");
    assert_eq!(v.reset_temporal_color("base"), Some((0, [1, 1, 1])));
    assert_eq!(v.get("base").unwrap().color, [1, 1, 1]);
}

#[test]
fn reset_without_highlight_is_noop() {
    let mut v = two_links();
    assert_eq!(v.reset_temporal_color("arm"), None);
    assert_eq!(v.get("arm").unwrap().color, [2, 2, 2]);
    assert_eq!(v.reset_temporal_color("nothing"), None);
}

#[test]
fn highlight_of_unknown_name_is_noop() {
    let mut v = two_links();
    assert_eq!(v.set_temporal_color("ghost", [3, 3, 3]), None);
    assert!(v.get("ghost").is_none());
    assert_eq!(v.reset_temporal_color("ghost"), None);
}

#[test]
fn update_skips_unknown_names_and_applies_others() {
    let mut v = two_links();
    let names = vec!["base".to_string(), "missing".to_string(), "arm".to_string()];
    let r = v.update(&names, &vec![10u32, 20, 30]);
    assert_eq!(r, vec![Some(0), None, Some(1)]);
    assert_eq!(v.get("base").unwrap().transform, Some(10));
    assert_eq!(v.get("arm").unwrap().transform, Some(30));
    assert!(v.get("missing").is_none());
}

#[test]
fn update_stops_at_shorter_sequence() {
    let mut v = two_links();
    let names = vec!["base".to_string(), "arm".to_string()];
    let r = v.update(&names, &vec![7u32]);
    assert_eq!(r, vec![Some(0)]);
    assert_eq!(v.get("base").unwrap().transform, Some(7));
    assert_eq!(v.get("arm").unwrap().transform, None);
}

#[test]
fn setup_registers_links_whose_geometry_was_built() {
    let mut v: Viewer<u32, Rgb> = Viewer::new();
    let names = vec!["a".to_string(), "b".to_string(), "c".to_string()];
    let built = vec![Some((0usize, [1u8, 0, 0])), None, Some((1usize, [0, 0, 1]))];
    v.setup(&names, &built);
    assert_eq!(v.get("a").unwrap().node, 0);
    assert!(v.get("b").is_none());
    let c: NodeState<u32, Rgb> = v.get("c").unwrap();
    assert_eq!(c.node, 1);
    assert_eq!(c.color, [0, 0, 1]);
}

#[test]
fn insert_node_replaces_earlier_node() {
    let mut v = two_links();
    v.insert_node("arm", 5, [7, 7, 7]);
    let s = v.get("arm").unwrap();
    assert_eq!(s.node, 5);
    assert_eq!(s.color, [7, 7, 7]);
    assert_eq!(s.transform, None);
}
