//! What the one-shot dialogs ask and how their answers are read.

use vstd::prelude::*;
use crate::path::{joined, PathParts};
use crate::structs::{Action, Note, Project};
use crate::text::{same_text, trim, trimmed, trimmed_keeps_solid_text};
use vstd::string::group_string_axioms;

verus! {

broadcast use group_string_axioms;

/// How many options a selection shows at once.
pub const SELECT_PAGE_SIZE: usize = 20;

/// The question of the dialog that picks an action.
pub const ACTION_PROMPT: &'static str = "What action would you like to take?";

/// The question of the dialog that names a new note.
pub const NOTE_NAME_PROMPT: &'static str = "What would you like to name this note?";

/// The question of the dialog that names a new project.
pub const PROJECT_NAME_PROMPT: &'static str = "What would you like to name this project?";

/// The option on which the cursor of the confirmation starts: `No`.
pub const CONFIRM_STARTING_CURSOR: usize = 1;

impl Action {
    /// The text under which the action is offered.
    pub open spec fn label_of(self) -> Seq<char> {
        match self {
            Action::CreateNote => "Create Note"@,
            Action::DeleteNote => "Delete Note"@,
            Action::CreateProject => "Create Project"@,
            Action::DeleteProject => "Delete Project"@,
        }
    }

    /// The text under which the action is offered.
    pub fn label(self) -> (text: &'static str)
        ensures
            text@ == self.label_of(),
    {
        match self {
            Action::CreateNote => "Create Note",
            Action::DeleteNote => "Delete Note",
            Action::CreateProject => "Create Project",
            Action::DeleteProject => "Delete Project",
        }
    }
}

/// The action that an answer stands for: the one whose label is the answer
/// without the whitespace around it.
pub open spec fn action_of(answer: Seq<char>) -> Option<Action> {
    let text = trimmed(answer);
    if text == Action::CreateNote.label_of() {
        Some(Action::CreateNote)
    } else if text == Action::DeleteNote.label_of() {
        Some(Action::DeleteNote)
    } else if text == Action::CreateProject.label_of() {
        Some(Action::CreateProject)
    } else if text == Action::DeleteProject.label_of() {
        Some(Action::DeleteProject)
    } else {
        None
    }
}

/// The options of the dialog that picks an action, in the order in which
/// they are shown.
pub fn action_options() -> (options: Vec<&'static str>)
    ensures
        options.len() == 4,
        options[0]@ == Action::CreateNote.label_of(),
        options[1]@ == Action::DeleteNote.label_of(),
        options[2]@ == Action::CreateProject.label_of(),
        options[3]@ == Action::DeleteProject.label_of(),
{
    let mut options: Vec<&'static str> = Vec::new();
    options.push(Action::CreateNote.label());
    options.push(Action::DeleteNote.label());
    options.push(Action::CreateProject.label());
    options.push(Action::DeleteProject.label());
    options
}

/// Reads the answer of the dialog that picks an action.
pub fn action_from_answer(answer: &str) -> (action: Option<Action>)
    ensures
        action == action_of(answer@),
{
    let text = trim(answer);
    if same_text(text, Action::CreateNote.label()) {
        Some(Action::CreateNote)
    } else if same_text(text, Action::DeleteNote.label()) {
        Some(Action::DeleteNote)
    } else if same_text(text, Action::CreateProject.label()) {
        Some(Action::CreateProject)
    } else if same_text(text, Action::DeleteProject.label()) {
        Some(Action::DeleteProject)
    } else {
        None
    }
}

/// Each action is read back from its own label.
pub proof fn labels_read_back(action: Action)
    ensures
        action_of(action.label_of()) == Some(action),
{
    reveal_strlit("Create Note");
    reveal_strlit("Delete Note");
    reveal_strlit("Create Project");
    reveal_strlit("Delete Project");
    let label = action.label_of();
    assert(label.first() == 'C' || label.first() == 'D');
    assert(label.last() == 'e' || label.last() == 't');
    trimmed_keeps_solid_text(label);
    assert("Create Note"@[0] != "Delete Note"@[0]);
    assert("Create Note"@.len() != "Create Project"@.len());
    assert("Create Note"@.len() != "Delete Project"@.len());
    assert("Delete Note"@.len() != "Create Project"@.len());
    assert("Delete Note"@.len() != "Delete Project"@.len());
    assert("Create Project"@[0] != "Delete Project"@[0]);
}

/// The question of the dialog that picks a note.
pub fn note_prompt(action: &str) -> (prompt: String)
    ensures
        prompt@ == "What file would you like to "@ + action@ + "?"@,
{
    let mut prompt = String::from_str("What file would you like to ");
    prompt.append(action);
    prompt.append("?");
    prompt
}

/// The question of the dialog that picks a project.
pub fn project_prompt(action: &str) -> (prompt: String)
    ensures
        prompt@ == "What project would you like to "@ + action@ + "?"@,
{
    let mut prompt = String::from_str("What project would you like to ");
    prompt.append(action);
    prompt.append("?");
    prompt
}

/// The options of the dialog that picks a note: the path of each note, in
/// the order of the catalog.
pub fn note_options(notes: &Vec<Note>) -> (options: Vec<String>)
    ensures
        options.len() == notes.len(),
        forall|i: int|
            0 <= i < notes.len() ==> (#[trigger] options[i])@ == joined(notes[i].relative_path@),
{
    let mut options: Vec<String> = Vec::new();
    let mut i: usize = 0;
    while i < notes.len()
        invariant
            i <= notes.len(),
            options.len() == i,
            forall|j: int|
                0 <= j < i ==> (#[trigger] options[j])@ == joined(notes[j].relative_path@),
        decreases notes.len() - i,
    {
        options.push(notes[i].relative_path.display());
        i += 1;
    }
    options
}

/// The options of the dialog that picks a project: the path of each
/// project, in the order of the catalog.
pub fn project_options(projects: &Vec<Project>) -> (options: Vec<String>)
    ensures
        options.len() == projects.len(),
        forall|i: int|
            0 <= i < projects.len() ==> (#[trigger] options[i])@ == joined(
                projects[i].relative_path@,
            ),
{
    let mut options: Vec<String> = Vec::new();
    let mut i: usize = 0;
    while i < projects.len()
        invariant
            i <= projects.len(),
            options.len() == i,
            forall|j: int|
                0 <= j < i ==> (#[trigger] options[j])@ == joined(projects[j].relative_path@),
        decreases projects.len() - i,
    {
        options.push(projects[i].relative_path.display());
        i += 1;
    }
    options
}

/// The position of the first option that an answer names: the first whose
/// text is the answer without the whitespace around it.
pub fn chosen_option(options: &Vec<String>, answer: &str) -> (position: Option<usize>)
    ensures
        match position {
            Some(i) => {
                &&& i < options.len()
                &&& options[i as int]@ == trimmed(answer@)
                &&& forall|j: int| 0 <= j < i ==> options[j]@ != trimmed(answer@)
            },
            None => forall|j: int| 0 <= j < options.len() ==> options[j]@ != trimmed(answer@),
        },
{
    let text = trim(answer);
    let mut i: usize = 0;
    while i < options.len()
        invariant
            i <= options.len(),
            text@ == trimmed(answer@),
            forall|j: int| 0 <= j < i ==> options[j]@ != text@,
        decreases options.len() - i,
    {
        if same_text(options[i].as_str(), text) {
            return Some(i);
        }
        i += 1;
    }
    None
}

/// The warning shown before a project is deleted; there is none for a note.
pub fn delete_warning(path: &PathParts, is_dir: bool) -> (warning: Option<String>)
    ensures
        warning is Some <==> is_dir,
        warning matches Some(w) ==> w@ == joined(path@)
            + " is a project, so this will delete all child notes as well, be VERY careful!"@,
{
    if is_dir {
        let mut warning = path.display();
        warning.append(
            " is a project, so this will delete all child notes as well, be VERY careful!",
        );
        Some(warning)
    } else {
        None
    }
}

/// The question of the dialog that confirms a deletion.
pub fn delete_prompt(path: &PathParts) -> (prompt: String)
    ensures
        prompt@ == "Are you sure you want to delete "@ + joined(path@) + "?"@,
{
    let mut prompt = String::from_str("Are you sure you want to delete ");
    prompt.append(path.display().as_str());
    prompt.append("?");
    prompt
}

/// The options of the dialog that confirms a deletion.
pub fn confirm_options() -> (options: Vec<&'static str>)
    ensures
        options.len() == 2,
        options[0]@ == "Yes"@,
        options[1]@ == "No"@,
{
    let mut options: Vec<&'static str> = Vec::new();
    options.push("Yes");
    options.push("No");
    options
}

/// Whether an answer to the confirmation lets the deletion go on: every
/// answer but `No`, with or without whitespace around it.
pub fn is_confirmed(answer: &str) -> (confirmed: bool)
    ensures
        confirmed == (trimmed(answer@) != "No"@),
{
    !same_text(trim(answer), "No")
}

} // verus!
