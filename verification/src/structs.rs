//! The values of the catalog: settings, notes, projects and the actions a
//! user can ask for.

use vstd::prelude::*;
use crate::path::PathParts;

verus! {

/// Everything the user can set.
#[derive(Debug)]
pub struct Config {
    /// Where everything is stored locally.
    pub root_dir: String,
    /// Names of directories that are left out of the catalog.
    pub ignore_dirs: Vec<String>,
    /// How many lines stay visible around the cursor before a menu scrolls.
    pub menu_scroll_buffer: u16,
}

/// The last component of a path, or the empty text for the empty path.
pub open spec fn file_name_of(path: Seq<Seq<char>>) -> Seq<char> {
    if path.len() > 0 {
        path.last()
    } else {
        Seq::empty()
    }
}

/// One note: a file under the root.
#[derive(Debug, PartialEq, Eq)]
pub struct Note {
    /// The last component of `relative_path`, kept for display.
    pub filename: String,
    /// The path of the file from the root.
    pub relative_path: PathParts,
}

impl Note {
    /// The file's name agrees with its path.
    pub open spec fn wf(&self) -> bool {
        self.filename@ == file_name_of(self.relative_path@)
    }

    /// The note of the file at `relative_path` from the root.
    pub fn new(relative_path: PathParts) -> (note: Self)
        ensures
            note.relative_path == relative_path,
            note.wf(),
    {
        let filename = match relative_path.file_name() {
            Some(name) => name,
            None => String::new(),
        };
        Note { filename, relative_path }
    }
}

impl Clone for Note {
    fn clone(&self) -> (copy: Self)
        ensures
            copy.filename@ == self.filename@,
            copy.relative_path@ == self.relative_path@,
    {
        Note { filename: self.filename.clone(), relative_path: self.relative_path.clone() }
    }
}

/// One project: a directory under the root.
#[derive(Debug, PartialEq, Eq)]
pub struct Project {
    /// The path of the directory from the root.
    pub relative_path: PathParts,
    /// The positions, in the list of notes, of the notes that lie under this
    /// directory at any depth.
    pub note_indices: Vec<usize>,
}

impl Project {
    /// The project of the directory at `relative_path`, with no note
    /// assigned to it yet.
    pub fn new(relative_path: PathParts) -> (project: Self)
        ensures
            project.relative_path == relative_path,
            project.note_indices@ == Seq::<usize>::empty(),
    {
        Project { relative_path, note_indices: Vec::new() }
    }
}

impl Clone for Project {
    fn clone(&self) -> (copy: Self)
        ensures
            copy.relative_path@ == self.relative_path@,
            copy.note_indices@ == self.note_indices@,
    {
        let note_indices = self.note_indices.clone();
        assert(note_indices@ =~= self.note_indices@);
        Project { relative_path: self.relative_path.clone(), note_indices }
    }
}

/// What a user can ask the catalog to do.
#[derive(Debug, Clone, Copy, PartialEq, Eq, Structural)]
pub enum Action {
    CreateNote,
    DeleteNote,
    CreateProject,
    DeleteProject,
}

} // verus!
