//! Command synthesis and the inspection of per-sub-command acknowledgements.

use vstd::prelude::*;
use vstd::string::StringExecFns;
use crate::errors::ResolutionError;

verus! {

/// The command string for `target`: a "move container" clause when
/// `move_container` is set, then a "switch focus" clause unless `stay` is set.
pub open spec fn command_text(move_container: bool, stay: bool, target: Seq<char>) -> Seq<char> {
    (if move_container {
        "move container to workspace "@ + target + ";"@
    } else {
        Seq::<char>::empty()
    }) + (if !stay {
        "workspace "@ + target + ";"@
    } else {
        Seq::<char>::empty()
    })
}

/// Nothing at all is requested: moving is off and staying is on, so the
/// synthesized command is empty and submission should be skipped.
pub open spec fn command_is_noop(move_container: bool, stay: bool) -> bool {
    !move_container && stay
}

/// Builds the command string to submit for switching to (or moving the
/// focused container to) the workspace named `target`.
pub fn build_command(move_container: bool, stay: bool, target: &String) -> (r: String)
    ensures
        r@ == command_text(move_container, stay, target@),
        r@.len() == 0 <==> command_is_noop(move_container, stay),
{
    let mut command = String::new();
    if move_container {
        command.append("move container to workspace ");
        command.append(target.as_str());
        command.append(";");
    }
    if !stay {
        command.append("workspace ");
        command.append(target.as_str());
        command.append(";");
    }
    proof {
        reveal_strlit("move container to workspace ");
        reveal_strlit("workspace ");
        reveal_strlit(";");
        assert(command@ =~= command_text(move_container, stay, target@));
    }
    command
}

/// The four toggle combinations, spelled out: move-and-stay gives only the
/// move clause, neither toggle gives only the focus switch, move alone gives
/// both clauses in that order, and stay alone gives the empty no-op command.
pub proof fn lemma_command_synthesis_cases(target: Seq<char>)
    ensures
        command_text(true, true, target) == "move container to workspace "@ + target + ";"@,
        command_text(false, false, target) == "workspace "@ + target + ";"@,
        command_text(true, false, target) == "move container to workspace "@ + target + ";"@
            + "workspace "@ + target + ";"@,
        command_text(false, true, target) == Seq::<char>::empty(),
{
    assert(command_text(true, true, target) =~= "move container to workspace "@ + target + ";"@);
    assert(command_text(false, false, target) =~= "workspace "@ + target + ";"@);
    assert(command_text(true, false, target) =~= "move container to workspace "@ + target + ";"@
        + "workspace "@ + target + ";"@);
    assert(command_text(false, true, target) =~= Seq::<char>::empty());
}

/// The acknowledgement of one sub-command, as the window manager reports it.
#[derive(Debug, Clone)]
pub struct CommandOutcome {
    pub success: bool,
    pub error: Option<String>,
}

/// The error text a failed sub-command contributes, if any: a successful
/// acknowledgement, or a failed one carrying no text, contributes nothing.
pub open spec fn failure_text_of(o: CommandOutcome) -> Option<Seq<char>> {
    match o.error {
        Some(t) => if !o.success {
            Some(t@)
        } else {
            None
        },
        None => None,
    }
}

/// Folds the acknowledgements from the left, joining the error texts of the
/// failed ones with newlines onto `acc`.
pub open spec fn fold_failures(outcomes: Seq<CommandOutcome>, acc: Option<Seq<char>>) -> Option<
    Seq<char>,
>
    decreases outcomes.len(),
{
    if outcomes.len() == 0 {
        acc
    } else {
        let joined = match failure_text_of(outcomes[0]) {
            Some(t) => match acc {
                Some(a) => Some(a + "\n"@ + t),
                None => Some(t),
            },
            None => acc,
        };
        fold_failures(outcomes.drop_first(), joined)
    }
}

/// The newline-joined error texts of all failed sub-commands, or `None` when
/// no sub-command contributed one.
pub open spec fn joined_failures(outcomes: Seq<CommandOutcome>) -> Option<Seq<char>> {
    fold_failures(outcomes, None)
}

/// Inspects each sub-command's acknowledgement: returns `Ok` when no failure
/// carried an error text, and otherwise a single `CommandRejected` whose
/// message joins every failing sub-command's text with newlines. Partial
/// success is not rolled back; it is only reported.
pub fn collect_command_errors(outcomes: &Vec<CommandOutcome>) -> (r: Result<
    (),
    ResolutionError,
>)
    ensures
        match joined_failures(outcomes@) {
            None => r is Ok,
            Some(t) => r matches Err(e) && e matches ResolutionError::CommandRejected(s) && s@
                == t,
        },
{
    let mut acc: Option<String> = None;
    let mut i: usize = 0;
    proof {
        assert(outcomes@.skip(0) =~= outcomes@);
    }
    while i < outcomes.len()
        invariant
            i <= outcomes@.len(),
            joined_failures(outcomes@) == fold_failures(
                outcomes@.skip(i as int),
                match acc {
                    Some(a) => Some(a@),
                    None => None,
                },
            ),
        decreases outcomes@.len() - i,
    {
        let ghost prev = outcomes@.skip(i as int);
        let o = &outcomes[i];
        if !o.success {
            if let Some(t) = &o.error {
                acc = match acc {
                    Some(a) => {
                        let mut joined = a;
                        joined.append("\n");
                        joined.append(t.as_str());
                        Some(joined)
                    },
                    None => Some(t.clone()),
                };
            }
        }
        i += 1;
        proof {
            assert(prev[0] == outcomes@[i - 1]);
            assert(prev.drop_first() =~= outcomes@.skip(i as int));
        }
    }
    proof {
        assert(outcomes@.skip(i as int) =~= Seq::<CommandOutcome>::empty());
    }
    match acc {
        None => Ok(()),
        Some(s) => Err(ResolutionError::CommandRejected(s)),
    }
}

} // verus!
