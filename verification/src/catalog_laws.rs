//! What holds of every catalog that is built from a listing.

use vstd::prelude::*;
use crate::catalog::{
    first_failure, has_any, note_paths, passed_over, positions_under, projects_hold, walked,
    walked_notes, walked_projects, EntryKind, Visit, WalkEntry,
};
use crate::path::{is_under, relative_to};
use crate::tui::app::{listed_below_keeps_rising_positions, App};

verus! {

/// Two paths under the same root that are equal from the root on are equal.
pub proof fn relative_paths_tell_apart(
    root: Seq<Seq<char>>,
    a: Seq<Seq<char>>,
    b: Seq<Seq<char>>,
)
    requires
        is_under(root, a),
        is_under(root, b),
        relative_to(root, a) == relative_to(root, b),
    ensures
        a == b,
{
    let n = root.len() as int;
    assert(a.len() == b.len()) by {
        assert(relative_to(root, a).len() == a.len() - n);
        assert(relative_to(root, b).len() == b.len() - n);
    }
    assert forall|i: int| 0 <= i < a.len() implies a[i] == b[i] by {
        if i >= n {
            assert(relative_to(root, a)[i - n] == a[i]);
            assert(relative_to(root, b)[i - n] == b[i]);
        }
    }
    assert(a =~= b);
}

/// A path is among the paths that a listing gives for a fate exactly if
/// some entry of the listing meets that fate and has that path.
pub proof fn walked_paths_come_from_entries(
    entries: Seq<WalkEntry>,
    root: Seq<Seq<char>>,
    ignore: Seq<Seq<char>>,
    fate: Visit,
)
    ensures
        forall|p: Seq<Seq<char>>| #[trigger]
            walked(entries, root, ignore, fate).contains(p) <==> exists|i: int|
                0 <= i < entries.len() && (#[trigger] entries[i]).visit(root, ignore) == fate
                    && relative_to(root, entries[i].path@) == p,
        walked(entries, root, ignore, fate).len() <= entries.len(),
    decreases entries.len(),
{
    if entries.len() > 0 {
        let front = entries.drop_last();
        let last = entries.last();
        walked_paths_come_from_entries(front, root, ignore, fate);
        let before = walked(front, root, ignore, fate);
        let all = walked(entries, root, ignore, fate);
        assert forall|p: Seq<Seq<char>>| #[trigger] all.contains(p) implies exists|i: int|
            0 <= i < entries.len() && (#[trigger] entries[i]).visit(root, ignore) == fate
                && relative_to(root, entries[i].path@) == p by {
            let k = choose|k: int| 0 <= k < all.len() && all[k] == p;
            if k < before.len() {
                assert(before[k] == p);
                assert(before.contains(p));
                let i = choose|i: int|
                    0 <= i < front.len() && (#[trigger] front[i]).visit(root, ignore) == fate
                        && relative_to(root, front[i].path@) == p;
                assert(entries[i] == front[i]);
            } else {
                assert(entries[entries.len() - 1] == last);
            }
        }
        assert forall|p: Seq<Seq<char>>|
            (exists|i: int|
                0 <= i < entries.len() && (#[trigger] entries[i]).visit(root, ignore) == fate
                    && relative_to(root, entries[i].path@) == p) implies #[trigger] all.contains(
            p,
        ) by {
            let i = choose|i: int|
                0 <= i < entries.len() && (#[trigger] entries[i]).visit(root, ignore) == fate
                    && relative_to(root, entries[i].path@) == p;
            if i < front.len() {
                assert(front[i] == entries[i]);
                assert(before.contains(p));
                let k = choose|k: int| 0 <= k < before.len() && before[k] == p;
                assert(all[k] == p);
            } else {
                assert(all[all.len() - 1] == p);
            }
        }
    }
}

/// No note of a catalog lies in a directory with an ignored name, and no
/// project has an ignored name or lies in such a directory: on the way from
/// the root to a note or a project no ignored name is passed.
pub proof fn catalog_avoids_ignored_names(
    entries: Seq<WalkEntry>,
    root: Seq<Seq<char>>,
    ignore: Seq<Seq<char>>,
)
    ensures
        forall|k: int|
            0 <= k < walked_notes(entries, root, ignore).len() ==> {
                let note = #[trigger] walked_notes(entries, root, ignore)[k];
                note.len() > 0 && !has_any(note.take(note.len() - 1), ignore)
            },
        forall|k: int|
            0 <= k < walked_projects(entries, root, ignore).len() ==> {
                let project = #[trigger] walked_projects(entries, root, ignore)[k];
                project.len() > 0 && !has_any(project, ignore)
            },
    decreases entries.len(),
{
    if entries.len() > 0 {
        let front = entries.drop_last();
        catalog_avoids_ignored_names(front, root, ignore);
        let last = entries.last();
        let path = last.path@;
        let below = relative_to(root, path);
        let n = root.len() as int;
        let notes = walked_notes(entries, root, ignore);
        let projects = walked_projects(entries, root, ignore);
        assert forall|k: int| 0 <= k < notes.len() implies {
            let note = #[trigger] notes[k];
            note.len() > 0 && !has_any(note.take(note.len() - 1), ignore)
        } by {
            if k < walked_notes(front, root, ignore).len() {
                assert(notes[k] == walked_notes(front, root, ignore)[k]);
            } else {
                assert(notes[k] == below);
                let dirs = below.take(below.len() - 1);
                if has_any(dirs, ignore) {
                    let i = choose|i: int|
                        0 <= i < dirs.len() && ignore.contains(#[trigger] dirs[i]);
                    assert(path.drop_last()[n + i] == dirs[i]);
                    assert(false);
                }
            }
        }
        assert forall|k: int| 0 <= k < projects.len() implies {
            let project = #[trigger] projects[k];
            project.len() > 0 && !has_any(project, ignore)
        } by {
            if k < walked_projects(front, root, ignore).len() {
                assert(projects[k] == walked_projects(front, root, ignore)[k]);
            } else {
                assert(projects[k] == below);
                if has_any(below, ignore) {
                    let i = choose|i: int|
                        0 <= i < below.len() && ignore.contains(#[trigger] below[i]);
                    assert(path[n + i] == below[i]);
                    assert(false);
                }
            }
        }
    }
}

/// Where every entry is, or lies in, a directory below the root on whose
/// way stands an ignored name, the catalog is empty: no notes and no
/// projects. One ignored name on the way suffices.
pub proof fn ignored_trees_leave_nothing(
    entries: Seq<WalkEntry>,
    root: Seq<Seq<char>>,
    ignore: Seq<Seq<char>>,
)
    requires
        forall|i: int|
            0 <= i < entries.len() ==> {
                let entry = #[trigger] entries[i];
                &&& !entry.fails(root)
                &&& passed_over(entry.path@, entry.kind, root, ignore)
            },
    ensures
        first_failure(entries, root) is None,
        walked_notes(entries, root, ignore) == Seq::<Seq<Seq<char>>>::empty(),
        walked_projects(entries, root, ignore) == Seq::<Seq<Seq<char>>>::empty(),
    decreases entries.len(),
{
    if entries.len() > 0 {
        let front = entries.drop_last();
        assert forall|i: int| 0 <= i < front.len() implies {
            let entry = #[trigger] front[i];
            &&& !entry.fails(root)
            &&& passed_over(entry.path@, entry.kind, root, ignore)
        } by {
            assert(front[i] == entries[i]);
        }
        ignored_trees_leave_nothing(front, root, ignore);
        assert(entries.last() == entries[entries.len() - 1]);
    }
}

/// Where no entry of a listing fails or is passed over, and no path is
/// listed twice, every file is a note exactly once and every directory is a
/// project exactly once, and nothing else is in the catalog.
pub proof fn unignored_trees_are_listed_once(
    entries: Seq<WalkEntry>,
    root: Seq<Seq<char>>,
    ignore: Seq<Seq<char>>,
)
    requires
        forall|i: int|
            0 <= i < entries.len() ==> {
                let entry = #[trigger] entries[i];
                &&& !entry.fails(root)
                &&& !passed_over(entry.path@, entry.kind, root, ignore)
            },
        forall|i: int, j: int|
            0 <= i < j < entries.len() ==> (#[trigger] entries[i]).path@ != (
            #[trigger] entries[j]).path@,
    ensures
        first_failure(entries, root) is None,
        walked_notes(entries, root, ignore).no_duplicates(),
        walked_projects(entries, root, ignore).no_duplicates(),
        walked_notes(entries, root, ignore).len() + walked_projects(entries, root, ignore).len()
            == entries.len(),
        forall|i: int|
            0 <= i < entries.len() ==> {
                let path = relative_to(root, (#[trigger] entries[i]).path@);
                &&& entries[i].kind == EntryKind::File ==> walked_notes(
                    entries,
                    root,
                    ignore,
                ).contains(path) && !walked_projects(entries, root, ignore).contains(path)
                &&& entries[i].kind == EntryKind::Directory ==> walked_projects(
                    entries,
                    root,
                    ignore,
                ).contains(path) && !walked_notes(entries, root, ignore).contains(path)
            },
    decreases entries.len(),
{
    walked_paths_come_from_entries(entries, root, ignore, Visit::Note);
    walked_paths_come_from_entries(entries, root, ignore, Visit::Project);
    let notes = walked_notes(entries, root, ignore);
    let projects = walked_projects(entries, root, ignore);
    if entries.len() > 0 {
        let front = entries.drop_last();
        let last = entries[entries.len() - 1];
        assert forall|i: int| 0 <= i < front.len() implies {
            let entry = #[trigger] front[i];
            &&& !entry.fails(root)
            &&& !passed_over(entry.path@, entry.kind, root, ignore)
        } by {
            assert(front[i] == entries[i]);
        }
        assert forall|i: int, j: int| 0 <= i < j < front.len() implies (#[trigger] front[i]).path@
            != (#[trigger] front[j]).path@ by {
            assert(front[i] == entries[i]);
            assert(front[j] == entries[j]);
        }
        unignored_trees_are_listed_once(front, root, ignore);
        walked_paths_come_from_entries(front, root, ignore, Visit::Note);
        walked_paths_come_from_entries(front, root, ignore, Visit::Project);
        let notes_before = walked_notes(front, root, ignore);
        let projects_before = walked_projects(front, root, ignore);
        let path = relative_to(root, last.path@);
        // the last entry's path has not been seen before
        assert(!notes_before.contains(path) && !projects_before.contains(path)) by {
            if notes_before.contains(path) {
                let i = choose|i: int|
                    0 <= i < front.len() && (#[trigger] front[i]).visit(root, ignore)
                        == Visit::Note && relative_to(root, front[i].path@) == path;
                assert(front[i] == entries[i]);
                relative_paths_tell_apart(root, entries[i].path@, last.path@);
            }
            if projects_before.contains(path) {
                let i = choose|i: int|
                    0 <= i < front.len() && (#[trigger] front[i]).visit(root, ignore)
                        == Visit::Project && relative_to(root, front[i].path@) == path;
                assert(front[i] == entries[i]);
                relative_paths_tell_apart(root, entries[i].path@, last.path@);
            }
        }
        assert(notes.no_duplicates()) by {
            if last.visit(root, ignore) == Visit::Note {
                lemma_push_keeps_distinct(notes_before, path);
            }
        }
        assert(projects.no_duplicates()) by {
            if last.visit(root, ignore) == Visit::Project {
                lemma_push_keeps_distinct(projects_before, path);
            }
        }
        assert forall|i: int| 0 <= i < entries.len() implies {
            let path = relative_to(root, (#[trigger] entries[i]).path@);
            &&& entries[i].kind == EntryKind::File ==> notes.contains(path) && !projects.contains(
                path,
            )
            &&& entries[i].kind == EntryKind::Directory ==> projects.contains(path)
                && !notes.contains(path)
        } by {
            let here = relative_to(root, entries[i].path@);
            if entries[i].kind == EntryKind::File {
                assert(entries[i].visit(root, ignore) == Visit::Note);
                if projects.contains(here) {
                    let j = choose|j: int|
                        0 <= j < entries.len() && (#[trigger] entries[j]).visit(root, ignore)
                            == Visit::Project && relative_to(root, entries[j].path@) == here;
                    relative_paths_tell_apart(root, entries[i].path@, entries[j].path@);
                }
            }
            if entries[i].kind == EntryKind::Directory {
                assert(entries[i].visit(root, ignore) == Visit::Project);
                if notes.contains(here) {
                    let j = choose|j: int|
                        0 <= j < entries.len() && (#[trigger] entries[j]).visit(root, ignore)
                            == Visit::Note && relative_to(root, entries[j].path@) == here;
                    relative_paths_tell_apart(root, entries[i].path@, entries[j].path@);
                }
            }
        }
    }
}

proof fn lemma_push_keeps_distinct(s: Seq<Seq<Seq<char>>>, p: Seq<Seq<char>>)
    requires
        s.no_duplicates(),
        !s.contains(p),
    ensures
        s.push(p).no_duplicates(),
{
    let t = s.push(p);
    assert forall|i: int, j: int| 0 <= i < t.len() && 0 <= j < t.len() && i != j implies t[i]
        != t[j] by {
        if i < s.len() && j < s.len() {
        } else if i < s.len() {
            assert(s.contains(s[i]));
        } else {
            assert(s.contains(s[j]));
        }
    }
}

/// A project holds each position of a note under it exactly once, in rising
/// order, and no other position: as a set, its positions are those of the
/// notes whose path has the project's path as a proper component-wise
/// prefix.
pub proof fn positions_under_are_exact(paths: Seq<Seq<Seq<char>>>, base: Seq<Seq<char>>)
    requires
        paths.len() <= usize::MAX,
    ensures
        positions_under(paths, base).to_set() == Set::new(
            |i: usize| i < paths.len() && is_under(base, paths[i as int]),
        ),
        positions_under(paths, base).no_duplicates(),
        positions_under(paths, base).len() <= paths.len(),
        forall|j: int, k: int|
            0 <= j < k < positions_under(paths, base).len() ==> positions_under(paths, base)[j]
                < positions_under(paths, base)[k],
    decreases paths.len(),
{
    let all = positions_under(paths, base);
    let wanted = Set::new(|i: usize| i < paths.len() && is_under(base, paths[i as int]));
    if paths.len() == 0 {
        assert(all.to_set() =~= wanted);
    } else {
        let front = paths.drop_last();
        let before = positions_under(front, base);
        positions_under_are_exact(front, base);
        let wanted_before = Set::new(|i: usize| i < front.len() && is_under(base, front[i as int]));
        assert(before.to_set() == wanted_before);
        assert forall|k: int| 0 <= k < before.len() implies (#[trigger] before[k]) < front.len() by {
            assert(before.to_set().contains(before[k]));
            assert(wanted_before.contains(before[k]));
        }
        assert forall|j: int, k: int| 0 <= j < k < all.len() implies all[j] < all[k] by {
            if k < before.len() {
            } else {
                assert(before[j] < front.len());
            }
        }
        assert forall|i: usize| all.to_set().contains(i) <==> wanted.contains(i) by {
            if all.to_set().contains(i) {
                let k = choose|k: int| 0 <= k < all.len() && all[k] == i;
                if k < before.len() {
                    assert(before.to_set().contains(before[k]));
                    assert(wanted_before.contains(i));
                    assert(front[i as int] == paths[i as int]);
                }
            }
            if wanted.contains(i) {
                if i < front.len() {
                    assert(front[i as int] == paths[i as int]);
                    assert(wanted_before.contains(i));
                    assert(before.to_set().contains(i));
                    let k = choose|k: int| 0 <= k < before.len() && before[k] == i;
                    assert(all[k] == i);
                } else {
                    assert(all[all.len() - 1] == i);
                }
            }
        }
        assert(all.to_set() =~= wanted);
    }
}

/// In a browser that holds a catalog as it was built, the notes panel
/// lists, for the project under the cursor, exactly the positions that the
/// project holds, in their order.
pub proof fn notes_panel_lists_the_project(app: &App)
    requires
        projects_hold(app.projects@, note_paths(app.notes@)),
        0 <= app.current_selected_project < app.projects.len(),
    ensures
        app.listed_notes() == app.projects[app.current_selected_project as int].note_indices@,
{
    let project = app.projects[app.current_selected_project as int];
    let paths = note_paths(app.notes@);
    let held = project.note_indices@;
    assert(paths.len() == app.notes.len());
    positions_under_are_exact(paths, project.relative_path@);
    assert forall|k: int| 0 <= k < held.len() implies (#[trigger] held[k]) < app.notes.len() by {
        assert(held.to_set().contains(held[k]));
    }
    listed_below_keeps_rising_positions(app.notes.len() as nat, held);
}

} // verus!
