//! The workspace resolver: given the ordered candidate list, the active
//! workspaces, the layout tree and the policy, it computes the single target
//! workspace name, or reports why no action is possible.

use vstd::prelude::*;
use crate::command::build_command;
use crate::command::command_text;
use crate::errors::ResolutionError;
use crate::layout::LayoutNode;
use crate::layout::is_workspace_empty;
use crate::layout::workspace_empty_in_tree;

verus! {

/// One currently active workspace, as reported by the window manager. In any
/// valid snapshot exactly one active workspace is focused.
#[derive(Debug, Clone)]
pub struct ActiveWorkspace {
    pub name: String,
    pub focused: bool,
}

/// The selection policy. Plain switches focus to the first free candidate;
/// Stay behaves the same here (only command synthesis differs); Force
/// additionally permits leaving an already-empty focused workspace for a
/// lower-priority empty one.
#[derive(Debug, Clone, Copy, PartialEq, Eq, Structural)]
pub enum Policy {
    Plain,
    Stay,
    Force,
}

/// The capacity rule applied before anything else. Which bound applies is
/// explicit configuration rather than a silent constant: either a fixed
/// ceiling on the number of active workspaces, or the length of the candidate
/// list itself.
#[derive(Debug, Clone, Copy, PartialEq, Eq, Structural)]
pub enum CapacityBound {
    Ceiling(usize),
    CandidateCount,
}

/// Whether the number of active workspaces has exhausted the configured bound.
pub open spec fn capacity_reached(
    bound: CapacityBound,
    candidates: Seq<String>,
    active: Seq<ActiveWorkspace>,
) -> bool {
    match bound {
        CapacityBound::Ceiling(c) => active.len() >= c,
        CapacityBound::CandidateCount => active.len() == candidates.len(),
    }
}

/// Whether `name` names one of the active workspaces.
pub open spec fn is_active_name(active: Seq<ActiveWorkspace>, name: Seq<char>) -> bool {
    exists|i: int| 0 <= i < active.len() && (#[trigger] active[i]).name@ == name
}

/// Whether position `i` holds a focused active workspace.
pub open spec fn focused_at(active: Seq<ActiveWorkspace>, i: int) -> bool {
    0 <= i < active.len() && active[i].focused
}

/// Whether position `i` holds the one and only focused workspace.
pub open spec fn unique_focus(active: Seq<ActiveWorkspace>, i: int) -> bool {
    focused_at(active, i) && (forall|j: int| #[trigger] focused_at(active, j) ==> j == i)
}

/// The focus invariant: exactly one active workspace is focused.
pub open spec fn exactly_one_focused(active: Seq<ActiveWorkspace>) -> bool {
    exists|i: int| #[trigger] unique_focus(active, i)
}

/// The position of the focused workspace (meaningful under the focus
/// invariant).
pub open spec fn focused_index(active: Seq<ActiveWorkspace>) -> int {
    choose|i: int| unique_focus(active, i)
}

/// The name of the focused workspace (meaningful under the focus invariant).
pub open spec fn focused_name(active: Seq<ActiveWorkspace>) -> Seq<char> {
    active[focused_index(active)].name@
}

/// Every candidate name is already active: nothing is free.
pub open spec fn all_candidates_active(
    candidates: Seq<String>,
    active: Seq<ActiveWorkspace>,
) -> bool {
    forall|i: int|
        0 <= i < candidates.len() ==> is_active_name(active, (#[trigger] candidates[i])@)
}

/// Position `i` holds the smallest inactive workspace: the first candidate,
/// in list order, whose name is not active.
pub open spec fn first_inactive(
    candidates: Seq<String>,
    active: Seq<ActiveWorkspace>,
    i: int,
) -> bool {
    &&& 0 <= i < candidates.len()
    &&& !is_active_name(active, candidates[i]@)
    &&& forall|j: int| 0 <= j < i ==> is_active_name(active, (#[trigger] candidates[j])@)
}

/// The position of the smallest inactive workspace (meaningful when not all
/// candidates are active).
pub open spec fn smallest_inactive_index(
    candidates: Seq<String>,
    active: Seq<ActiveWorkspace>,
) -> int {
    choose|i: int| first_inactive(candidates, active, i)
}

/// Whether `name` occurs in the candidate list at all.
pub open spec fn in_candidates(candidates: Seq<String>, name: Seq<char>) -> bool {
    exists|i: int| 0 <= i < candidates.len() && (#[trigger] candidates[i])@ == name
}

/// Position `i` is the first occurrence of `name` in the candidate list.
pub open spec fn first_index_of(candidates: Seq<String>, name: Seq<char>, i: int) -> bool {
    &&& 0 <= i < candidates.len()
    &&& candidates[i]@ == name
    &&& forall|j: int| 0 <= j < i ==> (#[trigger] candidates[j])@ != name
}

/// The first position of `name` in the candidate list (meaningful when the
/// name occurs there).
pub open spec fn candidate_index(candidates: Seq<String>, name: Seq<char>) -> int {
    choose|i: int| first_index_of(candidates, name, i)
}

/// At most one position can hold the smallest inactive workspace.
pub proof fn lemma_first_inactive_unique(
    candidates: Seq<String>,
    active: Seq<ActiveWorkspace>,
    i: int,
    j: int,
)
    requires
        first_inactive(candidates, active, i),
        first_inactive(candidates, active, j),
    ensures
        i == j,
{
    if i < j {
        assert(is_active_name(active, candidates[i]@));
    }
    if j < i {
        assert(is_active_name(active, candidates[j]@));
    }
}

/// At most one position can hold the unique focused workspace.
pub proof fn lemma_unique_focus_unique(active: Seq<ActiveWorkspace>, i: int, j: int)
    requires
        unique_focus(active, i),
        unique_focus(active, j),
    ensures
        i == j,
{
    assert(focused_at(active, i));
    assert(focused_at(active, j));
}

/// At most one position is the first occurrence of a name.
pub proof fn lemma_first_index_unique(candidates: Seq<String>, name: Seq<char>, i: int, j: int)
    requires
        first_index_of(candidates, name, i),
        first_index_of(candidates, name, j),
    ensures
        i == j,
{
}

/// What resolution decides after the capacity rule has passed: the focus
/// invariant, the smallest-inactive lookup, and the emptiness branch with its
/// policy handling.
pub open spec fn desired_workspace(
    candidates: Seq<String>,
    active: Seq<ActiveWorkspace>,
    tree: LayoutNode,
    policy: Policy,
) -> Result<Seq<char>, ResolutionError> {
    if !exactly_one_focused(active) {
        Err(ResolutionError::FocusInvariantViolated)
    } else if all_candidates_active(candidates, active) {
        Err(ResolutionError::NoFreeWorkspace)
    } else {
        let target = candidates[smallest_inactive_index(candidates, active)]@;
        if !workspace_empty_in_tree(tree, focused_name(active)) {
            Ok(target)
        } else if !(policy is Force) {
            Err(ResolutionError::CurrentWorkspaceEmpty)
        } else if !in_candidates(candidates, focused_name(active)) {
            Ok(target)
        } else if candidate_index(candidates, focused_name(active)) < smallest_inactive_index(
            candidates,
            active,
        ) {
            Err(ResolutionError::AlreadySmallest)
        } else {
            Ok(target)
        }
    }
}

/// The whole resolution, capacity rule included.
pub open spec fn resolution(
    candidates: Seq<String>,
    active: Seq<ActiveWorkspace>,
    tree: LayoutNode,
    policy: Policy,
    bound: CapacityBound,
) -> Result<Seq<char>, ResolutionError> {
    if capacity_reached(bound, candidates, active) {
        Err(ResolutionError::NoFreeWorkspace)
    } else {
        desired_workspace(candidates, active, tree, policy)
    }
}

/// The returned target name, viewed as a sequence of characters.
pub open spec fn target_view(r: Result<String, ResolutionError>) -> Result<
    Seq<char>,
    ResolutionError,
> {
    match r {
        Ok(s) => Ok(s@),
        Err(e) => Err(e),
    }
}

/// The capacity rule: fails with `NoFreeWorkspace` exactly when the number of
/// active workspaces has exhausted the configured bound.
pub fn is_inactive_workspace_available(
    candidates: &Vec<String>,
    active: &Vec<ActiveWorkspace>,
    bound: CapacityBound,
) -> (r: Result<(), ResolutionError>)
    ensures
        r is Ok <==> !capacity_reached(bound, candidates@, active@),
        r is Err ==> r == Err::<(), ResolutionError>(ResolutionError::NoFreeWorkspace),
{
    let reached = match bound {
        CapacityBound::Ceiling(c) => active.len() >= c,
        CapacityBound::CandidateCount => active.len() == candidates.len(),
    };
    if reached {
        Err(ResolutionError::NoFreeWorkspace)
    } else {
        Ok(())
    }
}

/// Whether `name` names one of the active workspaces.
fn contains_name(active: &Vec<ActiveWorkspace>, name: &String) -> (r: bool)
    ensures
        r == is_active_name(active@, name@),
{
    let mut i: usize = 0;
    while i < active.len()
        invariant
            i <= active@.len(),
            forall|j: int| 0 <= j < i ==> (#[trigger] active@[j]).name@ != name@,
        decreases active@.len() - i,
    {
        if active[i].name.eq(name) {
            return true;
        }
        i += 1;
    }
    false
}

/// Finds the one focused workspace, failing with `FocusInvariantViolated`
/// when the snapshot holds none or more than one.
pub fn extract_current_workspace(active: &Vec<ActiveWorkspace>) -> (r: Result<
    usize,
    ResolutionError,
>)
    ensures
        match r {
            Ok(i) => unique_focus(active@, i as int),
            Err(e) => e == ResolutionError::FocusInvariantViolated && !exactly_one_focused(
                active@,
            ),
        },
{
    let mut found: Option<usize> = None;
    let mut i: usize = 0;
    while i < active.len()
        invariant
            i <= active@.len(),
            match found {
                None => forall|j: int| 0 <= j < i ==> !(#[trigger] active@[j]).focused,
                Some(k) => k < i && active@[k as int].focused && (forall|j: int|
                    0 <= j < i && j != k ==> !(#[trigger] active@[j]).focused),
            },
        decreases active@.len() - i,
    {
        if active[i].focused {
            match found {
                Some(k) => {
                    proof {
                        assert(focused_at(active@, k as int));
                        assert(focused_at(active@, i as int));
                        assert forall|m: int| !(#[trigger] unique_focus(active@, m)) by {
                            if unique_focus(active@, m) {
                                assert(k as int == m);
                                assert(i as int == m);
                            }
                        }
                    }
                    return Err(ResolutionError::FocusInvariantViolated);
                },
                None => {
                    found = Some(i);
                },
            }
        }
        i += 1;
    }
    match found {
        Some(k) => {
            proof {
                assert forall|j: int| #[trigger] focused_at(active@, j) implies j == k as int by {
                }
                assert(unique_focus(active@, k as int));
            }
            Ok(k)
        },
        None => {
            proof {
                assert forall|m: int| !(#[trigger] unique_focus(active@, m)) by {
                    if unique_focus(active@, m) {
                        assert(focused_at(active@, m));
                    }
                }
            }
            Err(ResolutionError::FocusInvariantViolated)
        },
    }
}

/// Scans the candidate list in order and returns the position of the first
/// name that is not active, failing with `NoFreeWorkspace` when every
/// candidate is.
pub fn find_smallest_inactive_workspace_name(
    candidates: &Vec<String>,
    active: &Vec<ActiveWorkspace>,
) -> (r: Result<usize, ResolutionError>)
    ensures
        match r {
            Ok(i) => first_inactive(candidates@, active@, i as int),
            Err(e) => e == ResolutionError::NoFreeWorkspace && all_candidates_active(
                candidates@,
                active@,
            ),
        },
{
    let mut i: usize = 0;
    while i < candidates.len()
        invariant
            i <= candidates@.len(),
            forall|j: int| 0 <= j < i ==> is_active_name(active@, (#[trigger] candidates@[j])@),
        decreases candidates@.len() - i,
    {
        if !contains_name(active, &candidates[i]) {
            return Ok(i);
        }
        i += 1;
    }
    Err(ResolutionError::NoFreeWorkspace)
}

/// The first position of `name` in the candidate list, if it occurs at all.
fn position_in_candidates(candidates: &Vec<String>, name: &String) -> (r: Option<usize>)
    ensures
        match r {
            Some(i) => first_index_of(candidates@, name@, i as int),
            None => !in_candidates(candidates@, name@),
        },
{
    let mut i: usize = 0;
    while i < candidates.len()
        invariant
            i <= candidates@.len(),
            forall|j: int| 0 <= j < i ==> (#[trigger] candidates@[j])@ != name@,
        decreases candidates@.len() - i,
    {
        if candidates[i].eq(name) {
            return Some(i);
        }
        i += 1;
    }
    None
}

/// Resolution without the capacity rule: checks the focus invariant, looks up
/// the smallest inactive workspace, and applies the emptiness branch under
/// the given policy. Returns the target workspace name.
pub fn determine_desired_workspace_name(
    candidates: &Vec<String>,
    active: &Vec<ActiveWorkspace>,
    tree: &LayoutNode,
    policy: Policy,
) -> (r: Result<String, ResolutionError>)
    ensures
        target_view(r) == desired_workspace(candidates@, active@, *tree, policy),
{
    let cur = match extract_current_workspace(active) {
        Ok(i) => i,
        Err(e) => {
            return Err(e);
        },
    };
    proof {
        assert(exactly_one_focused(active@));
        lemma_unique_focus_unique(active@, cur as int, focused_index(active@));
    }
    let smallest = match find_smallest_inactive_workspace_name(candidates, active) {
        Ok(i) => i,
        Err(e) => {
            return Err(e);
        },
    };
    proof {
        assert(!all_candidates_active(candidates@, active@));
        lemma_first_inactive_unique(
            candidates@,
            active@,
            smallest as int,
            smallest_inactive_index(candidates@, active@),
        );
    }
    let current_name = &active[cur].name;
    if is_workspace_empty(tree, current_name.as_str()) {
        match policy {
            Policy::Force => {
                match position_in_candidates(candidates, current_name) {
                    None => Ok(candidates[smallest].clone()),
                    Some(c) => {
                        proof {
                            assert(is_active_name(active@, candidates@[c as int]@));
                            assert(c as int != smallest as int);
                            assert(in_candidates(candidates@, focused_name(active@)));
                            lemma_first_index_unique(
                                candidates@,
                                focused_name(active@),
                                c as int,
                                candidate_index(candidates@, focused_name(active@)),
                            );
                        }
                        if c < smallest {
                            Err(ResolutionError::AlreadySmallest)
                        } else {
                            Ok(candidates[smallest].clone())
                        }
                    },
                }
            },
            _ => Err(ResolutionError::CurrentWorkspaceEmpty),
        }
    } else {
        Ok(candidates[smallest].clone())
    }
}

/// The whole resolution: the capacity rule, the focus invariant, the
/// smallest-inactive lookup, and the policy-dependent emptiness branch.
pub fn resolve(
    candidates: &Vec<String>,
    active: &Vec<ActiveWorkspace>,
    tree: &LayoutNode,
    policy: Policy,
    bound: CapacityBound,
) -> (r: Result<String, ResolutionError>)
    ensures
        target_view(r) == resolution(candidates@, active@, *tree, policy, bound),
{
    match is_inactive_workspace_available(candidates, active, bound) {
        Err(e) => Err(e),
        Ok(()) => determine_desired_workspace_name(candidates, active, tree, policy),
    }
}

/// With the candidate-count capacity bound, an active set as large as the
/// candidate list leaves no room: resolution fails with `NoFreeWorkspace`,
/// whatever the policy and the layout tree.
pub proof fn lemma_full_active_set_has_no_free_workspace(
    candidates: Seq<String>,
    active: Seq<ActiveWorkspace>,
    tree: LayoutNode,
    policy: Policy,
)
    requires
        active.len() == candidates.len(),
    ensures
        resolution(candidates, active, tree, policy, CapacityBound::CandidateCount) == Err::<
            Seq<char>,
            ResolutionError,
        >(ResolutionError::NoFreeWorkspace),
{
}

/// Whenever the focused workspace is non-empty, the resolver selects exactly
/// the first candidate name absent from the active set — never an earlier or
/// a later one — under every policy.
pub proof fn lemma_selects_first_inactive(
    candidates: Seq<String>,
    active: Seq<ActiveWorkspace>,
    tree: LayoutNode,
    policy: Policy,
    bound: CapacityBound,
    i: int,
)
    requires
        !capacity_reached(bound, candidates, active),
        exactly_one_focused(active),
        first_inactive(candidates, active, i),
        !workspace_empty_in_tree(tree, focused_name(active)),
    ensures
        resolution(candidates, active, tree, policy, bound) == Ok::<Seq<char>, ResolutionError>(
            candidates[i]@,
        ),
{
    assert(!all_candidates_active(candidates, active));
    lemma_first_inactive_unique(candidates, active, i, smallest_inactive_index(candidates, active));
}

/// When the focused workspace is empty and the policy is Plain (or Stay),
/// resolution fails with `CurrentWorkspaceEmpty`, whichever candidate is
/// free.
pub proof fn lemma_plain_on_empty_workspace_fails(
    candidates: Seq<String>,
    active: Seq<ActiveWorkspace>,
    tree: LayoutNode,
    policy: Policy,
    bound: CapacityBound,
)
    requires
        !capacity_reached(bound, candidates, active),
        exactly_one_focused(active),
        !all_candidates_active(candidates, active),
        workspace_empty_in_tree(tree, focused_name(active)),
        !(policy is Force),
    ensures
        resolution(candidates, active, tree, policy, bound) == Err::<Seq<char>, ResolutionError>(
            ResolutionError::CurrentWorkspaceEmpty,
        ),
{
}

/// Under the force policy, when the focused workspace is empty and sits at a
/// candidate position before the first inactive candidate, it is already the
/// highest-priority empty slot: resolution fails with `AlreadySmallest`.
pub proof fn lemma_force_already_smallest(
    candidates: Seq<String>,
    active: Seq<ActiveWorkspace>,
    tree: LayoutNode,
    bound: CapacityBound,
    c: int,
    s: int,
)
    requires
        !capacity_reached(bound, candidates, active),
        exactly_one_focused(active),
        workspace_empty_in_tree(tree, focused_name(active)),
        first_index_of(candidates, focused_name(active), c),
        first_inactive(candidates, active, s),
        c < s,
    ensures
        resolution(candidates, active, tree, Policy::Force, bound) == Err::<
            Seq<char>,
            ResolutionError,
        >(ResolutionError::AlreadySmallest),
{
    assert(!all_candidates_active(candidates, active));
    lemma_first_inactive_unique(candidates, active, s, smallest_inactive_index(candidates, active));
    assert(in_candidates(candidates, focused_name(active)));
    lemma_first_index_unique(
        candidates,
        focused_name(active),
        c,
        candidate_index(candidates, focused_name(active)),
    );
}

/// The boolean flags handed in at the input boundary, as the user selects
/// the policy combination.
#[derive(Debug, Clone, Copy, PartialEq, Eq, Structural)]
pub struct Options {
    pub move_container: bool,
    pub stay: bool,
    pub force: bool,
}

/// The policy the flags select: force wins over stay; otherwise plain.
pub open spec fn policy_of(opts: Options) -> Policy {
    if opts.force {
        Policy::Force
    } else if opts.stay {
        Policy::Stay
    } else {
        Policy::Plain
    }
}

/// The complete decision for one invocation: the target workspace name and
/// the command string to submit for it (empty when neither moving nor
/// switching was requested, in which case submission should be skipped).
#[derive(Debug)]
pub struct TargetDecision {
    pub target: String,
    pub command: String,
}

/// The whole decision of one invocation, fetching and submitting aside:
/// resolves the target under the policy the flags select and synthesizes the
/// command string to submit for it.
pub fn decide(
    candidates: &Vec<String>,
    active: &Vec<ActiveWorkspace>,
    tree: &LayoutNode,
    opts: Options,
    bound: CapacityBound,
) -> (r: Result<TargetDecision, ResolutionError>)
    ensures
        match (r, resolution(candidates@, active@, *tree, policy_of(opts), bound)) {
            (Ok(d), Ok(t)) => d.target@ == t && d.command@ == command_text(
                opts.move_container,
                opts.stay,
                t,
            ),
            (Err(e1), Err(e2)) => e1 == e2,
            _ => false,
        },
{
    let policy = if opts.force {
        Policy::Force
    } else if opts.stay {
        Policy::Stay
    } else {
        Policy::Plain
    };
    match resolve(candidates, active, tree, policy, bound) {
        Ok(target) => {
            let command = build_command(opts.move_container, opts.stay, &target);
            Ok(TargetDecision { target, command })
        },
        Err(e) => Err(e),
    }
}

} // verus!
