use parknotes::path::PathParts;
use parknotes::prompts::{
    action_from_answer, action_options, chosen_option, confirm_options, delete_prompt,
    delete_warning, is_confirmed, note_options, note_prompt, project_options, project_prompt,
    ACTION_PROMPT, CONFIRM_STARTING_CURSOR, NOTE_NAME_PROMPT, PROJECT_NAME_PROMPT,
    SELECT_PAGE_SIZE,
};
use parknotes::structs::{Action, Note, Project};

fn entry_path(names: &[&str]) -> PathParts {
    PathParts::new(names.iter().map(|n| n.to_string()).collect())
}

#[test]
fn actions_are_offered_in_order() {
    assert_eq!(
        action_options(),
        vec![
            "Create Note",
            "Delete Note",
            "Create Project",
            "Delete Project"
        ]
    );
    assert_eq!(ACTION_PROMPT, "What action would you like to take?");
}

#[test]
fn each_label_is_read_back_as_its_action() {
    for action in [
        Action::CreateNote,
        Action::DeleteNote,
        Action::CreateProject,
        Action::DeleteProject,
    ] {
        assert_eq!(action_from_answer(action.label()), Some(action));
    }
}

#[test]
fn answers_are_trimmed_before_they_are_read() {
    assert_eq!(
        action_from_answer("  Create Note \n"),
        Some(Action::CreateNote)
    );
    assert_eq!(
        action_from_answer("\tDelete Project"),
        Some(Action::DeleteProject)
    );
}

#[test]
fn unknown_answers_name_no_action() {
    assert_eq!(action_from_answer("create note"), None);
    assert_eq!(action_from_answer("Create  Note"), None);
    assert_eq!(action_from_answer(""), None);
    assert_eq!(action_from_answer("Delete"), None);
}

#[test]
fn questions_name_the_action() {
    assert_eq!(
        note_prompt("delete"),
        "What file would you like to delete?"
    );
    assert_eq!(
        project_prompt("add this note to"),
        "What project would you like to add this note to?"
    );
    assert_eq!(NOTE_NAME_PROMPT, "What would you like to name this note?");
    assert_eq!(
        PROJECT_NAME_PROMPT,
        "What would you like to name this project?"
    );
    assert_eq!(SELECT_PAGE_SIZE, 20);
}

#[test]
fn options_are_the_paths_in_catalog_order() {
    let notes = vec![
        Note::new(entry_path(&["b", "n.md"])),
        Note::new(entry_path(&["a.md"])),
    ];
    let projects = vec![Project::new(entry_path(&["b"])), Project::new(entry_path(&["b", "c"]))];
    assert_eq!(note_options(&notes), vec!["b/n.md", "a.md"]);
    assert_eq!(project_options(&projects), vec!["b", "b/c"]);
    assert!(note_options(&vec![]).is_empty());
}

#[test]
fn chosen_option_is_the_first_that_matches_the_trimmed_answer() {
    let options = vec![
        String::from("a.md"),
        String::from("b/n.md"),
        String::from("a.md"),
    ];
    assert_eq!(chosen_option(&options, "b/n.md"), Some(1));
    assert_eq!(chosen_option(&options, " a.md\n"), Some(0));
    assert_eq!(chosen_option(&options, "n.md"), None);
    assert_eq!(chosen_option(&vec![], "a.md"), None);
}

#[test]
fn deleting_a_project_comes_with_a_warning() {
    assert_eq!(
        delete_warning(&entry_path(&["p"]), true),
        Some(String::from(
            "p is a project, so this will delete all child notes as well, be VERY careful!"
        ))
    );
    assert_eq!(delete_warning(&entry_path(&["p", "n.md"]), false), None);
}

#[test]
fn confirmation_asks_about_the_path() {
    assert_eq!(
        delete_prompt(&entry_path(&["p", "n.md"])),
        "Are you sure you want to delete p/n.md?"
    );
    assert_eq!(confirm_options(), vec!["Yes", "No"]);
    assert_eq!(CONFIRM_STARTING_CURSOR, 1);
    assert_eq!(confirm_options()[CONFIRM_STARTING_CURSOR], "No");
}

#[test]
fn only_no_cancels_a_deletion() {
    assert!(is_confirmed("Yes"));
    assert!(is_confirmed(" Yes "));
    assert!(!is_confirmed("No"));
    assert!(!is_confirmed("  No\n"));
    assert!(is_confirmed("no"));
    assert!(is_confirmed(""));
}
