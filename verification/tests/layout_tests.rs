use find_empty_workspace::layout::{is_workspace_empty, LayoutNode};

fn node(name: Option<&str>, nodes: Vec<LayoutNode>) -> LayoutNode {
    LayoutNode { name: name.map(String::from), nodes }
}

fn leaf(name: Option<&str>) -> LayoutNode {
    node(name, vec![])
}

fn tree_with(outputs: Vec<LayoutNode>) -> LayoutNode {
    node(Some("root"), outputs)
}

#[test]
fn empty_workspace_is_found() {
    let tree = tree_with(vec![node(
        Some("eDP-1"),
        vec![node(Some("content"), vec![leaf(Some("1")), leaf(Some("2"))])],
    )]);
    assert!(is_workspace_empty(&tree, "1"));
    assert!(is_workspace_empty(&tree, "2"));
}

#[test]
fn workspace_with_a_window_is_not_empty() {
    let tree = tree_with(vec![node(
        Some("eDP-1"),
        vec![node(
            Some("content"),
            vec![node(Some("1"), vec![leaf(Some("window"))]), leaf(Some("2"))],
        )],
    )]);
    assert!(!is_workspace_empty(&tree, "1"));
    assert!(is_workspace_empty(&tree, "2"));
}

#[test]
fn absent_workspace_is_not_empty() {
    let tree = tree_with(vec![node(
        Some("eDP-1"),
        vec![node(Some("content"), vec![leaf(Some("1"))])],
    )]);
    assert!(!is_workspace_empty(&tree, "3"));
}

#[test]
fn reserved_output_is_skipped() {
    let tree = tree_with(vec![node(
        Some("__i3"),
        vec![node(Some("content"), vec![leaf(Some("1"))])],
    )]);
    assert!(!is_workspace_empty(&tree, "1"));
}

#[test]
fn only_content_children_are_inspected() {
    let tree = tree_with(vec![node(
        Some("eDP-1"),
        vec![node(Some("dock"), vec![leaf(Some("1"))])],
    )]);
    assert!(!is_workspace_empty(&tree, "1"));
}

#[test]
fn workspace_on_second_output_is_found() {
    let tree = tree_with(vec![
        node(Some("__i3"), vec![node(Some("content"), vec![leaf(Some("9"))])]),
        node(
            Some("eDP-1"),
            vec![node(Some("content"), vec![node(Some("1"), vec![leaf(None)])])],
        ),
        node(Some("HDMI-1"), vec![node(Some("content"), vec![leaf(Some("2"))])]),
    ]);
    assert!(!is_workspace_empty(&tree, "9"));
    assert!(!is_workspace_empty(&tree, "1"));
    assert!(is_workspace_empty(&tree, "2"));
}

#[test]
fn unnamed_nodes_never_match() {
    let tree = tree_with(vec![node(
        Some("eDP-1"),
        vec![node(Some("content"), vec![leaf(None)])],
    )]);
    assert!(!is_workspace_empty(&tree, "1"));
}

#[test]
fn nodes_below_workspace_depth_are_not_inspected() {
    // The workspace named "1" sits one level too deep: the fixed-depth walk
    // must not find it.
    let tree = tree_with(vec![node(
        Some("eDP-1"),
        vec![node(
            Some("content"),
            vec![node(Some("2"), vec![leaf(Some("1"))])],
        )],
    )]);
    assert!(!is_workspace_empty(&tree, "1"));
}
