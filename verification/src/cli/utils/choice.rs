//! What the user can do once the draft has been edited, when the message
//! can be saved to a file or to standard output.

use vstd::prelude::*;

verus! {

/// An action offered after editing.
#[derive(Clone, Copy, Debug, PartialEq, Eq, Structural)]
pub enum PostEditChoice {
    SaveToFile,
    SaveToStdout,
    ViewMime,
    ViewTemplate,
    Edit,
    Abort,
}

impl PostEditChoice {
    /// How the action is shown to the user.
    pub fn label(&self) -> (r: &'static str)
        ensures
            r@ == match self {
                PostEditChoice::SaveToFile => "Save MIME message to file"@,
                PostEditChoice::SaveToStdout => "Save MIME message to stdout"@,
                PostEditChoice::ViewMime => "Preview MIME message"@,
                PostEditChoice::ViewTemplate => "Preview MML template"@,
                PostEditChoice::Edit => "Edit MML again"@,
                PostEditChoice::Abort => "Abort"@,
            },
    {
        match self {
            PostEditChoice::SaveToFile => "Save MIME message to file",
            PostEditChoice::SaveToStdout => "Save MIME message to stdout",
            PostEditChoice::ViewMime => "Preview MIME message",
            PostEditChoice::ViewTemplate => "Preview MML template",
            PostEditChoice::Edit => "Edit MML again",
            PostEditChoice::Abort => "Abort",
        }
    }
}

/// The actions offered, in order: when the draft compiles, saving (to the
/// output file when there is one, else to standard output), the two
/// previews, editing again and aborting; when it does not, editing
/// again, previewing the template and aborting.
pub open spec fn offered(compile_ok: bool, has_output_path: bool) -> Seq<PostEditChoice> {
    let save = if has_output_path {
        PostEditChoice::SaveToFile
    } else {
        PostEditChoice::SaveToStdout
    };
    if compile_ok {
        seq![
            save,
            PostEditChoice::ViewMime,
            PostEditChoice::ViewTemplate,
            PostEditChoice::Edit,
            PostEditChoice::Abort,
        ]
    } else {
        seq![PostEditChoice::Edit, PostEditChoice::ViewTemplate, PostEditChoice::Abort]
    }
}

/// The actions offered after editing (see [`offered`]); the caller asks
/// the user to pick one.
pub fn post_edit_choices(compile_ok: bool, has_output_path: bool) -> (r: Vec<PostEditChoice>)
    ensures
        r@ == offered(compile_ok, has_output_path),
{
    let save = if has_output_path {
        PostEditChoice::SaveToFile
    } else {
        PostEditChoice::SaveToStdout
    };
    if compile_ok {
        vec![
            save,
            PostEditChoice::ViewMime,
            PostEditChoice::ViewTemplate,
            PostEditChoice::Edit,
            PostEditChoice::Abort,
        ]
    } else {
        vec![PostEditChoice::Edit, PostEditChoice::ViewTemplate, PostEditChoice::Abort]
    }
}

} // verus!
