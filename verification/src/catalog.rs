//! Building the catalog from the entries of a directory tree.
//!
//! The program that reads the directories hands over what it found, entry by
//! entry in the order in which it found it. Which entries become notes, which
//! become projects, which are passed over and which make the build fail is
//! decided here.

use vstd::prelude::*;
use crate::path::{is_under, relative_to, PathParts};
use crate::structs::{Config, Note, Project};
use crate::text::name_listed;

verus! {

/// What kind of thing a directory entry is.
#[derive(Debug, Clone, Copy, PartialEq, Eq, Structural)]
pub enum EntryKind {
    File,
    Directory,
    /// The entry could not be read; its path is not known.
    Unreadable,
}

/// One entry found while walking the tree below the root.
#[derive(Debug)]
pub struct WalkEntry {
    /// The components of the entry's full path, those of the root included.
    pub path: PathParts,
    pub kind: EntryKind,
}

/// What becomes of an entry.
#[derive(Debug, Clone, Copy, PartialEq, Eq, Structural)]
pub enum Visit {
    /// The entry is a file and becomes a note.
    Note,
    /// The entry is a directory and becomes a project; the walk goes on
    /// inside it.
    Project,
    /// The entry is, or lies in, a directory with an ignored name: it is
    /// passed over, and the walk does not go into it.
    Ignored,
    /// The entry does not lie under the root: the build fails.
    NotUnderRoot,
    /// The entry could not be read: the build fails.
    Unreadable,
}

/// Why a catalog could not be built. Each error names the position, in the
/// listing, of the first entry that made the build fail.
#[derive(Debug, Clone, Copy, PartialEq, Eq, Structural)]
pub enum CatalogError {
    /// An entry does not lie under the root.
    PathError { entry: usize },
    /// An entry could not be read.
    UnreadableEntry { entry: usize },
}

/// Some component of `components` is one of the `names`.
pub open spec fn has_any(components: Seq<Seq<char>>, names: Seq<Seq<char>>) -> bool {
    exists|i: int| 0 <= i < components.len() && names.contains(#[trigger] components[i])
}

/// The directories on the way to an entry, the entry itself included where
/// it is a directory.
pub open spec fn directory_part(path: Seq<Seq<char>>, kind: EntryKind) -> Seq<Seq<char>> {
    if kind == EntryKind::Directory {
        path
    } else {
        path.drop_last()
    }
}

/// An entry under the root is passed over if it is a directory, or lies in a
/// directory below the root, and a component of that directory's full path
/// is an ignored name.
pub open spec fn passed_over(
    path: Seq<Seq<char>>,
    kind: EntryKind,
    root: Seq<Seq<char>>,
    ignore: Seq<Seq<char>>,
) -> bool {
    &&& directory_part(path, kind).len() > root.len()
    &&& has_any(directory_part(path, kind), ignore)
}

/// What becomes of an entry with the given path and kind.
pub open spec fn visit_of(
    path: Seq<Seq<char>>,
    kind: EntryKind,
    root: Seq<Seq<char>>,
    ignore: Seq<Seq<char>>,
) -> Visit {
    if kind == EntryKind::Unreadable {
        Visit::Unreadable
    } else if !is_under(root, path) {
        Visit::NotUnderRoot
    } else if passed_over(path, kind, root, ignore) {
        Visit::Ignored
    } else if kind == EntryKind::Directory {
        Visit::Project
    } else {
        Visit::Note
    }
}

impl WalkEntry {
    /// What becomes of this entry.
    pub open spec fn visit(&self, root: Seq<Seq<char>>, ignore: Seq<Seq<char>>) -> Visit {
        visit_of(self.path@, self.kind, root, ignore)
    }

    /// This entry makes the build fail.
    pub open spec fn fails(&self, root: Seq<Seq<char>>) -> bool {
        self.kind == EntryKind::Unreadable || !is_under(root, self.path@)
    }
}

/// The paths, from the root, of the entries that meet the given fate, in the
/// order of the listing.
pub open spec fn walked(
    entries: Seq<WalkEntry>,
    root: Seq<Seq<char>>,
    ignore: Seq<Seq<char>>,
    fate: Visit,
) -> Seq<Seq<Seq<char>>>
    decreases entries.len(),
{
    if entries.len() == 0 {
        Seq::empty()
    } else {
        let before = walked(entries.drop_last(), root, ignore, fate);
        if entries.last().visit(root, ignore) == fate {
            before.push(relative_to(root, entries.last().path@))
        } else {
            before
        }
    }
}

/// The paths, from the root, of the entries that become notes, in the order
/// of the listing.
pub open spec fn walked_notes(
    entries: Seq<WalkEntry>,
    root: Seq<Seq<char>>,
    ignore: Seq<Seq<char>>,
) -> Seq<Seq<Seq<char>>> {
    walked(entries, root, ignore, Visit::Note)
}

/// The paths, from the root, of the entries that become projects, in the
/// order of the listing.
pub open spec fn walked_projects(
    entries: Seq<WalkEntry>,
    root: Seq<Seq<char>>,
    ignore: Seq<Seq<char>>,
) -> Seq<Seq<Seq<char>>> {
    walked(entries, root, ignore, Visit::Project)
}

/// The position of the first entry that makes the build fail, if there is
/// one.
pub open spec fn first_failure(entries: Seq<WalkEntry>, root: Seq<Seq<char>>) -> Option<int>
    decreases entries.len(),
{
    if entries.len() == 0 {
        None
    } else {
        match first_failure(entries.drop_last(), root) {
            Some(i) => Some(i),
            None => if entries.last().fails(root) {
                Some(entries.len() - 1)
            } else {
                None
            },
        }
    }
}

/// The error for a failing entry at position `at`.
pub open spec fn error_of(entry: WalkEntry, at: int) -> CatalogError {
    if entry.kind == EntryKind::Unreadable {
        CatalogError::UnreadableEntry { entry: at as usize }
    } else {
        CatalogError::PathError { entry: at as usize }
    }
}

/// The positions of the paths that lie under `base`, in rising order.
pub open spec fn positions_under(paths: Seq<Seq<Seq<char>>>, base: Seq<Seq<char>>) -> Seq<usize>
    recommends
        paths.len() <= usize::MAX,
    decreases paths.len(),
{
    if paths.len() == 0 {
        Seq::empty()
    } else {
        let before = positions_under(paths.drop_last(), base);
        if is_under(base, paths.last()) {
            before.push((paths.len() - 1) as usize)
        } else {
            before
        }
    }
}

/// The paths of a list of notes.
pub open spec fn note_paths(notes: Seq<Note>) -> Seq<Seq<Seq<char>>> {
    Seq::new(notes.len(), |i: int| notes[i].relative_path@)
}

/// The paths of a list of projects.
pub open spec fn project_paths(projects: Seq<Project>) -> Seq<Seq<Seq<char>>> {
    Seq::new(projects.len(), |i: int| projects[i].relative_path@)
}

/// Each note's file name agrees with its path.
pub open spec fn notes_wf(notes: Seq<Note>) -> bool {
    forall|i: int| 0 <= i < notes.len() ==> (#[trigger] notes[i]).wf()
}

/// Each project holds the positions of exactly the notes under it, in
/// rising order.
pub open spec fn projects_hold(projects: Seq<Project>, notes: Seq<Seq<Seq<char>>>) -> bool {
    forall|j: int|
        0 <= j < projects.len() ==> (#[trigger] projects[j]).note_indices@ == positions_under(
            notes,
            projects[j].relative_path@,
        )
}

/// The first `upto` components of a path, or all of them where it has fewer.
pub open spec fn leading(path: Seq<Seq<char>>, upto: int) -> Seq<Seq<char>> {
    if 0 <= upto <= path.len() {
        path.take(upto)
    } else {
        path
    }
}

/// Whether one of the first `upto` components of `path` is one of `names`;
/// where the path has fewer components, whether any of them is.
pub fn contains_ignored_dir(path: &PathParts, upto: usize, names: &Vec<String>) -> (found: bool)
    ensures
        found == has_any(leading(path@, upto as int), names.deep_view()),
{
    let end: usize = if upto <= path.len() {
        upto
    } else {
        path.len()
    };
    let ghost front = leading(path@, upto as int);
    assert(front =~= path@.take(end as int));
    let mut i: usize = 0;
    while i < end
        invariant
            i <= end <= path.components.len(),
            front == path@.take(end as int),
            front == leading(path@, upto as int),
            forall|j: int| 0 <= j < i ==> !names.deep_view().contains(#[trigger] path@[j]),
        decreases end - i,
    {
        if name_listed(names, &path.components[i]) {
            assert(front[i as int] == path@[i as int]);
            return true;
        }
        i += 1;
    }
    assert forall|j: int| 0 <= j < front.len() implies !names.deep_view().contains(
        #[trigger] front[j],
    ) by {
        assert(front[j] == path@[j]);
    }
    false
}

/// Decides what becomes of one entry.
pub fn classify(entry: &WalkEntry, root_dir: &PathParts, ignore_dirs: &Vec<String>) -> (visit:
    Visit)
    ensures
        visit == entry.visit(root_dir@, ignore_dirs.deep_view()),
{
    if entry.kind == EntryKind::Unreadable {
        return Visit::Unreadable;
    }
    if !entry.path.is_under(root_dir) {
        return Visit::NotUnderRoot;
    }
    let is_dir = entry.kind == EntryKind::Directory;
    let upto: usize = if is_dir {
        entry.path.len()
    } else {
        entry.path.len() - 1
    };
    proof {
        if is_dir {
            assert(leading(entry.path@, upto as int) =~= entry.path@);
        } else {
            assert(leading(entry.path@, upto as int) =~= entry.path@.drop_last());
        }
    }
    if upto > root_dir.len() && contains_ignored_dir(&entry.path, upto, ignore_dirs) {
        Visit::Ignored
    } else if is_dir {
        Visit::Project
    } else {
        Visit::Note
    }
}

/// Takes the entries of a listing in order and appends a note for each file
/// and a project for each directory that is not passed over. The build fails
/// at the first entry that could not be read or does not lie under the
/// root; what came before it has been appended by then.
pub fn get_dir_objects(
    entries: &Vec<WalkEntry>,
    notes: &mut Vec<Note>,
    projects: &mut Vec<Project>,
    root_dir: &PathParts,
    ignore_dirs: &Vec<String>,
) -> (result: Result<(), CatalogError>)
    ensures
        notes_wf(old(notes)@) ==> notes_wf(final(notes)@),
        old(notes)@.is_prefix_of(final(notes)@),
        old(projects)@.is_prefix_of(final(projects)@),
        forall|j: int|
            old(projects).len() <= j < final(projects).len() ==> (#[trigger] final(projects)[j])
                .note_indices@ == Seq::<usize>::empty(),
        match result {
            Ok(()) => {
                &&& first_failure(entries@, root_dir@) is None
                &&& note_paths(final(notes)@) == note_paths(old(notes)@) + walked_notes(
                    entries@,
                    root_dir@,
                    ignore_dirs.deep_view(),
                )
                &&& project_paths(final(projects)@) == project_paths(old(projects)@)
                    + walked_projects(entries@, root_dir@, ignore_dirs.deep_view())
            },
            Err(e) => {
                &&& first_failure(entries@, root_dir@) matches Some(k)
                &&& 0 <= k < entries.len()
                &&& e == error_of(entries[k], k)
                &&& note_paths(final(notes)@) == note_paths(old(notes)@) + walked_notes(
                    entries@.take(k),
                    root_dir@,
                    ignore_dirs.deep_view(),
                )
                &&& project_paths(final(projects)@) == project_paths(old(projects)@)
                    + walked_projects(entries@.take(k), root_dir@, ignore_dirs.deep_view())
            },
        },
{
    let ghost root = root_dir@;
    let ghost ignore = ignore_dirs.deep_view();
    let mut i: usize = 0;
    assert(note_paths(notes@) =~= note_paths(old(notes)@) + walked_notes(
        entries@.take(0),
        root,
        ignore,
    ));
    assert(project_paths(projects@) =~= project_paths(old(projects)@) + walked_projects(
        entries@.take(0),
        root,
        ignore,
    ));
    while i < entries.len()
        invariant
            i <= entries.len(),
            root == root_dir@,
            ignore == ignore_dirs.deep_view(),
            notes_wf(old(notes)@) ==> notes_wf(notes@),
            old(notes)@.is_prefix_of(notes@),
            old(projects)@.is_prefix_of(projects@),
            forall|j: int|
                old(projects).len() <= j < projects.len() ==> (#[trigger] projects[j]).note_indices@
                    == Seq::<usize>::empty(),
            first_failure(entries@.take(i as int), root) is None,
            note_paths(notes@) == note_paths(old(notes)@) + walked_notes(
                entries@.take(i as int),
                root,
                ignore,
            ),
            project_paths(projects@) == project_paths(old(projects)@) + walked_projects(
                entries@.take(i as int),
                root,
                ignore,
            ),
        decreases entries.len() - i,
    {
        let entry = &entries[i];
        let ghost seen = entries@.take(i as int);
        let ghost next = entries@.take(i + 1);
        proof {
            assert(next.drop_last() =~= seen);
            assert(next.last() == entries[i as int]);
        }
        match classify(entry, root_dir, ignore_dirs) {
            Visit::Unreadable => {
                proof {
                    lemma_first_failure_stays(entries@, root, i + 1);
                }
                return Err(CatalogError::UnreadableEntry { entry: i });
            },
            Visit::NotUnderRoot => {
                proof {
                    lemma_first_failure_stays(entries@, root, i + 1);
                }
                return Err(CatalogError::PathError { entry: i });
            },
            Visit::Ignored => {},
            Visit::Project => {
                let ghost paths = project_paths(projects@);
                match entry.path.strip_prefix(root_dir) {
                    Some(relative) => {
                        projects.push(Project::new(relative));
                        assert(project_paths(projects@) =~= paths.push(
                            relative_to(root, entry.path@),
                        ));
                    },
                    None => {},
                }
            },
            Visit::Note => {
                let ghost paths = note_paths(notes@);
                match entry.path.strip_prefix(root_dir) {
                    Some(relative) => {
                        notes.push(Note::new(relative));
                        assert(note_paths(notes@) =~= paths.push(relative_to(root, entry.path@)));
                    },
                    None => {},
                }
            },
        }
        i += 1;
    }
    assert(entries@.take(i as int) =~= entries@);
    Ok(())
}

/// Once a listing has failed within its first `upto` entries, the first
/// failure of the whole listing is that one.
pub proof fn lemma_first_failure_stays(entries: Seq<WalkEntry>, root: Seq<Seq<char>>, upto: int)
    requires
        0 <= upto <= entries.len(),
        first_failure(entries.take(upto), root) is Some,
    ensures
        first_failure(entries, root) == first_failure(entries.take(upto), root),
    decreases entries.len() - upto,
{
    if upto < entries.len() {
        let next = entries.take(upto + 1);
        assert(next.drop_last() =~= entries.take(upto));
        lemma_first_failure_stays(entries, root, upto + 1);
    } else {
        assert(entries.take(upto) =~= entries);
    }
}

/// The positions, in `notes`, of the notes that lie under `base`, in rising
/// order.
pub fn notes_under(notes: &Vec<Note>, base: &PathParts) -> (indices: Vec<usize>)
    ensures
        indices@ == positions_under(note_paths(notes@), base@),
{
    let ghost paths = note_paths(notes@);
    let mut indices: Vec<usize> = Vec::new();
    let mut i: usize = 0;
    while i < notes.len()
        invariant
            i <= notes.len(),
            paths == note_paths(notes@),
            indices@ == positions_under(paths.take(i as int), base@),
        decreases notes.len() - i,
    {
        proof {
            assert(paths.take(i + 1).drop_last() =~= paths.take(i as int));
            assert(paths.take(i + 1).last() == notes[i as int].relative_path@);
        }
        if notes[i].relative_path.is_under(base) {
            indices.push(i);
        }
        i += 1;
    }
    assert(paths.take(i as int) =~= paths);
    indices
}

/// The same projects, each with the positions of the notes that lie under
/// it.
pub fn assign_notes(projects: &Vec<Project>, notes: &Vec<Note>) -> (assigned: Vec<Project>)
    ensures
        project_paths(assigned@) == project_paths(projects@),
        projects_hold(assigned@, note_paths(notes@)),
{
    let mut assigned: Vec<Project> = Vec::new();
    let mut j: usize = 0;
    while j < projects.len()
        invariant
            j <= projects.len(),
            assigned.len() == j,
            forall|k: int|
                0 <= k < j ==> {
                    &&& (#[trigger] assigned[k]).relative_path@ == projects[k].relative_path@
                    &&& assigned[k].note_indices@ == positions_under(
                        note_paths(notes@),
                        projects[k].relative_path@,
                    )
                },
        decreases projects.len() - j,
    {
        let relative_path = projects[j].relative_path.clone();
        let note_indices = notes_under(notes, &relative_path);
        assigned.push(Project { relative_path, note_indices });
        j += 1;
    }
    assert(project_paths(assigned@) =~= project_paths(projects@));
    assigned
}

/// Builds the catalog from the listing of the tree below `root_dir`: a note
/// for each file and a project for each directory, in the order of the
/// listing, leaving out what is, or lies in, a directory whose name the
/// settings ignore; then each project is given the positions of the notes
/// under it. One entry that could not be read, or that does not lie under
/// the root, fails the whole build.
pub fn create_objects(config: &Config, root_dir: &PathParts, entries: &Vec<WalkEntry>) -> (result:
    Result<(Vec<Note>, Vec<Project>), CatalogError>)
    ensures
        match result {
            Ok((notes, projects)) => {
                &&& first_failure(entries@, root_dir@) is None
                &&& note_paths(notes@) == walked_notes(
                    entries@,
                    root_dir@,
                    config.ignore_dirs.deep_view(),
                )
                &&& project_paths(projects@) == walked_projects(
                    entries@,
                    root_dir@,
                    config.ignore_dirs.deep_view(),
                )
                &&& notes_wf(notes@)
                &&& projects_hold(projects@, note_paths(notes@))
            },
            Err(e) => {
                &&& first_failure(entries@, root_dir@) matches Some(k)
                &&& 0 <= k < entries.len()
                &&& e == error_of(entries[k], k)
            },
        },
{
    let mut notes: Vec<Note> = Vec::new();
    let mut projects: Vec<Project> = Vec::new();
    assert(note_paths(notes@) =~= Seq::empty());
    assert(project_paths(projects@) =~= Seq::empty());
    match get_dir_objects(entries, &mut notes, &mut projects, root_dir, &config.ignore_dirs) {
        Ok(()) => {
            let projects = assign_notes(&projects, &notes);
            Ok((notes, projects))
        },
        Err(e) => Err(e),
    }
}

} // verus!
