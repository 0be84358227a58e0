use mml::cli::choice::{post_edit_choices, PostEditChoice};
use mml::cli::editor::{edit_step, EditStep};
use mml::cli::utils::choice as save_choice;

#[test]
fn choices_when_the_draft_compiles() {
    assert_eq!(
        post_edit_choices(true),
        vec![
            PostEditChoice::Done,
            PostEditChoice::ViewMime,
            PostEditChoice::ViewTemplate,
            PostEditChoice::Edit,
            PostEditChoice::Abort,
        ]
    );
    assert_eq!(PostEditChoice::Done.label(), "Compile to MIME message");
    assert_eq!(PostEditChoice::Abort.label(), "Abort");
}

#[test]
fn choices_when_the_draft_does_not_compile() {
    assert_eq!(
        post_edit_choices(false),
        vec![PostEditChoice::Edit, PostEditChoice::ViewTemplate, PostEditChoice::Abort]
    );
    assert_eq!(
        save_choice::post_edit_choices(false, true),
        vec![
            save_choice::PostEditChoice::Edit,
            save_choice::PostEditChoice::ViewTemplate,
            save_choice::PostEditChoice::Abort,
        ]
    );
}

#[test]
fn saving_goes_to_the_output_file_when_there_is_one() {
    assert_eq!(
        save_choice::post_edit_choices(true, true)[0],
        save_choice::PostEditChoice::SaveToFile
    );
    assert_eq!(
        save_choice::post_edit_choices(true, false)[0],
        save_choice::PostEditChoice::SaveToStdout
    );
    assert_eq!(save_choice::post_edit_choices(true, false).len(), 5);
    assert_eq!(save_choice::PostEditChoice::SaveToStdout.label(), "Save MIME message to stdout");
}

#[test]
fn editing_loop_steps() {
    assert_eq!(edit_step(PostEditChoice::Done, true), EditStep::Finish);
    assert_eq!(edit_step(PostEditChoice::Done, false), EditStep::Ask);
    assert_eq!(edit_step(PostEditChoice::ViewMime, true), EditStep::ShowMime);
    assert_eq!(edit_step(PostEditChoice::ViewMime, false), EditStep::Ask);
    assert_eq!(edit_step(PostEditChoice::ViewTemplate, false), EditStep::ShowTemplate);
    assert_eq!(edit_step(PostEditChoice::Edit, true), EditStep::Edit);
    assert_eq!(edit_step(PostEditChoice::Abort, true), EditStep::Abort);
}
