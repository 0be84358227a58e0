//! The editing loop of the editor-driven commands, as decisions: after
//! each edit the draft is compiled, then the user picks an action until
//! one of them leaves the prompt. The loop ends only when the user
//! finishes with a compiled message or aborts.

use vstd::prelude::*;

use crate::cli::choice::PostEditChoice;

verus! {

/// What the editing loop does after the user picked an action.
#[derive(Clone, Copy, Debug, PartialEq, Eq, Structural)]
pub enum EditStep {
    /// End the loop with the compiled message.
    Finish,
    /// End the loop without a message.
    Abort,
    /// Open the editor on the draft again.
    Edit,
    /// Show the draft, then ask again.
    ShowTemplate,
    /// Show the compiled message, then ask again.
    ShowMime,
    /// Ask again.
    Ask,
}

/// The step the loop takes for `choice`, `compiled` telling whether the
/// draft compiled: finishing and showing the message need a compiled
/// message, and ask again without one.
pub open spec fn step_for(choice: PostEditChoice, compiled: bool) -> EditStep {
    match choice {
        PostEditChoice::Done => if compiled {
            EditStep::Finish
        } else {
            EditStep::Ask
        },
        PostEditChoice::ViewMime => if compiled {
            EditStep::ShowMime
        } else {
            EditStep::Ask
        },
        PostEditChoice::ViewTemplate => EditStep::ShowTemplate,
        PostEditChoice::Edit => EditStep::Edit,
        PostEditChoice::Abort => EditStep::Abort,
    }
}

/// The step the editing loop takes after the user picked `choice` (see
/// [`step_for`]).
pub fn edit_step(choice: PostEditChoice, compiled: bool) -> (r: EditStep)
    ensures
        r == step_for(choice, compiled),
{
    match choice {
        PostEditChoice::Done => if compiled {
            EditStep::Finish
        } else {
            EditStep::Ask
        },
        PostEditChoice::ViewMime => if compiled {
            EditStep::ShowMime
        } else {
            EditStep::Ask
        },
        PostEditChoice::ViewTemplate => EditStep::ShowTemplate,
        PostEditChoice::Edit => EditStep::Edit,
        PostEditChoice::Abort => EditStep::Abort,
    }
}

/// The loop ends only with a compiled message, when the user is done, or
/// without one, when the user aborts; every other step goes on.
pub proof fn lemma_loop_ends_only_when_done_or_aborted(choice: PostEditChoice, compiled: bool)
    ensures
        step_for(choice, compiled) == EditStep::Finish <==> (choice == PostEditChoice::Done
            && compiled),
        step_for(choice, compiled) == EditStep::Abort <==> choice == PostEditChoice::Abort,
{
}

} // verus!
