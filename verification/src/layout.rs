//! The layout inspector: a snapshot of the window manager's layout tree and
//! the fixed-depth search that decides whether a named workspace is empty.
//!
//! The tree has a conventional shape: root -> output nodes (one of which is a
//! reserved internal output) -> a "content" child per output -> workspace
//! nodes -> window/container nodes. A workspace is empty iff it has no
//! children. Floating containers attached elsewhere are deliberately not
//! inspected.

use vstd::prelude::*;
use vstd::string::StringExecFns;

verus! {

/// One node of the layout-tree snapshot: an optional name and its children,
/// in the window manager's order.
#[derive(Debug)]
pub struct LayoutNode {
    pub name: Option<String>,
    pub nodes: Vec<LayoutNode>,
}

/// Whether an optional node name is present and reads `s`.
pub open spec fn opt_name_is(name: Option<String>, s: Seq<char>) -> bool {
    name matches Some(n) && n@ == s
}

/// The reserved internal output that must be skipped when walking outputs.
pub open spec fn is_reserved_output(n: LayoutNode) -> bool {
    opt_name_is(n.name, "__i3"@)
}

/// The per-output child that directly parents the workspace nodes.
pub open spec fn is_content_node(n: LayoutNode) -> bool {
    opt_name_is(n.name, "content"@)
}

/// Some child of `content` is the workspace named `name` and has no windows.
pub open spec fn empty_workspace_under_content(content: LayoutNode, name: Seq<char>) -> bool {
    exists|k: int|
        0 <= k < content.nodes@.len() && opt_name_is(#[trigger] content.nodes@[k].name, name)
            && content.nodes@[k].nodes@.len() == 0
}

/// Some "content" child of `output` has the empty workspace `name` under it.
pub open spec fn empty_workspace_under_output(output: LayoutNode, name: Seq<char>) -> bool {
    exists|j: int|
        0 <= j < output.nodes@.len() && is_content_node(#[trigger] output.nodes@[j])
            && empty_workspace_under_content(output.nodes@[j], name)
}

/// The workspace named `name` exists directly under a "content" child of some
/// non-reserved output of `tree` and has no children. A workspace that does
/// not appear at that depth is absent, not empty.
pub open spec fn workspace_empty_in_tree(tree: LayoutNode, name: Seq<char>) -> bool {
    exists|i: int|
        0 <= i < tree.nodes@.len() && !is_reserved_output(#[trigger] tree.nodes@[i])
            && empty_workspace_under_output(tree.nodes@[i], name)
}

/// Whether `name` is present and equals `expected`.
fn name_matches(name: &Option<String>, expected: &str) -> (r: bool)
    ensures
        r == opt_name_is(*name, expected@),
{
    match name {
        Some(n) => {
            let e = String::from_str(expected);
            *n == e
        },
        None => false,
    }
}

/// Whether some child of `content` is the workspace `workspace_name` with no
/// windows on it.
fn content_has_empty_workspace(content: &LayoutNode, workspace_name: &str) -> (r: bool)
    ensures
        r == empty_workspace_under_content(*content, workspace_name@),
{
    let mut k: usize = 0;
    while k < content.nodes.len()
        invariant
            k <= content.nodes@.len(),
            forall|x: int|
                0 <= x < k ==> !(opt_name_is(
                    #[trigger] content.nodes@[x].name,
                    workspace_name@,
                ) && content.nodes@[x].nodes@.len() == 0),
        decreases content.nodes@.len() - k,
    {
        let w = &content.nodes[k];
        if name_matches(&w.name, workspace_name) && w.nodes.len() == 0 {
            return true;
        }
        k += 1;
    }
    false
}

/// Whether some "content" child of `output` holds the empty workspace.
fn output_has_empty_workspace(output: &LayoutNode, workspace_name: &str) -> (r: bool)
    ensures
        r == empty_workspace_under_output(*output, workspace_name@),
{
    let mut j: usize = 0;
    while j < output.nodes.len()
        invariant
            j <= output.nodes@.len(),
            forall|x: int|
                0 <= x < j ==> !(is_content_node(#[trigger] output.nodes@[x])
                    && empty_workspace_under_content(output.nodes@[x], workspace_name@)),
        decreases output.nodes@.len() - j,
    {
        let c = &output.nodes[j];
        if name_matches(&c.name, "content") && content_has_empty_workspace(c, workspace_name) {
            return true;
        }
        j += 1;
    }
    false
}

/// The layout inspector: true iff the workspace named `workspace_name` exists
/// at the conventional depth under a non-reserved output and has no windows.
pub fn is_workspace_empty(tree: &LayoutNode, workspace_name: &str) -> (r: bool)
    ensures
        r == workspace_empty_in_tree(*tree, workspace_name@),
{
    let mut i: usize = 0;
    while i < tree.nodes.len()
        invariant
            i <= tree.nodes@.len(),
            forall|x: int|
                0 <= x < i ==> !(!is_reserved_output(#[trigger] tree.nodes@[x])
                    && empty_workspace_under_output(tree.nodes@[x], workspace_name@)),
        decreases tree.nodes@.len() - i,
    {
        let o = &tree.nodes[i];
        if !name_matches(&o.name, "__i3") && output_has_empty_workspace(o, workspace_name) {
            return true;
        }
        i += 1;
    }
    false
}

} // verus!
