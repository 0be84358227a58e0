//! What the user can do once the draft has been edited.

use vstd::prelude::*;

verus! {

/// An action offered after editing.
#[derive(Clone, Copy, Debug, PartialEq, Eq, Structural)]
pub enum PostEditChoice {
    Done,
    ViewMime,
    ViewTemplate,
    Edit,
    Abort,
}

impl PostEditChoice {
    /// How the action is shown to the user.
    pub fn label(&self) -> (r: &'static str)
        ensures
            r@ == match self {
                PostEditChoice::Done => "Compile to MIME message"@,
                PostEditChoice::ViewMime => "Preview MIME message"@,
                PostEditChoice::ViewTemplate => "Preview MML template"@,
                PostEditChoice::Edit => "Edit MML again"@,
                PostEditChoice::Abort => "Abort"@,
            },
    {
        match self {
            PostEditChoice::Done => "Compile to MIME message",
            PostEditChoice::ViewMime => "Preview MIME message",
            PostEditChoice::ViewTemplate => "Preview MML template",
            PostEditChoice::Edit => "Edit MML again",
            PostEditChoice::Abort => "Abort",
        }
    }
}

/// The actions offered, in order: when the draft compiles, finishing,
/// the two previews, editing again and aborting; when it does not,
/// editing again, previewing the template and aborting.
pub open spec fn offered(compile_ok: bool) -> Seq<PostEditChoice> {
    if compile_ok {
        seq![
            PostEditChoice::Done,
            PostEditChoice::ViewMime,
            PostEditChoice::ViewTemplate,
            PostEditChoice::Edit,
            PostEditChoice::Abort,
        ]
    } else {
        seq![PostEditChoice::Edit, PostEditChoice::ViewTemplate, PostEditChoice::Abort]
    }
}

/// The actions offered after editing (see [`offered`]); the caller asks
/// the user to pick one.
pub fn post_edit_choices(compile_ok: bool) -> (r: Vec<PostEditChoice>)
    ensures
        r@ == offered(compile_ok),
{
    if compile_ok {
        vec![
            PostEditChoice::Done,
            PostEditChoice::ViewMime,
            PostEditChoice::ViewTemplate,
            PostEditChoice::Edit,
            PostEditChoice::Abort,
        ]
    } else {
        vec![PostEditChoice::Edit, PostEditChoice::ViewTemplate, PostEditChoice::Abort]
    }
}

} // verus!
