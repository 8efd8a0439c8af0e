//! The state of the browser and how key presses change it.

use vstd::prelude::*;
use crate::structs::{Config, Note, Project};

verus! {

/// The four screens, which follow each other in a ring.
#[derive(Debug, Clone, Copy, PartialEq, Eq, Structural)]
pub enum CurrentScreen {
    Search,
    Projects,
    Notes,
    Preview,
}

/// How many screens the ring has.
pub const SCREEN_COUNT: usize = 4;

impl CurrentScreen {
    /// The place of the screen in the ring, counted from 0.
    pub open spec fn place(self) -> int {
        match self {
            CurrentScreen::Search => 0,
            CurrentScreen::Projects => 1,
            CurrentScreen::Notes => 2,
            CurrentScreen::Preview => 3,
        }
    }

    /// The screen at a place of the ring.
    pub open spec fn at(place: int) -> CurrentScreen {
        if place == 0 {
            CurrentScreen::Search
        } else if place == 1 {
            CurrentScreen::Projects
        } else if place == 2 {
            CurrentScreen::Notes
        } else {
            CurrentScreen::Preview
        }
    }

    /// The screen that follows this one in the ring: the one at the next
    /// place, and the first after the last.
    pub open spec fn following(self) -> CurrentScreen {
        Self::at((self.place() + 1) % (SCREEN_COUNT as int))
    }

    /// The place of the screen in the ring, counted from 0.
    pub fn position(self) -> (place: usize)
        ensures
            place == self.place(),
            place < SCREEN_COUNT,
    {
        match self {
            CurrentScreen::Search => 0,
            CurrentScreen::Projects => 1,
            CurrentScreen::Notes => 2,
            CurrentScreen::Preview => 3,
        }
    }

    /// The screen at a place of the ring; the last one for any place beyond
    /// it.
    pub fn from_position(place: usize) -> (screen: CurrentScreen)
        ensures
            screen == Self::at(place as int),
            place < SCREEN_COUNT ==> screen.place() == place,
    {
        if place == 0 {
            CurrentScreen::Search
        } else if place == 1 {
            CurrentScreen::Projects
        } else if place == 2 {
            CurrentScreen::Notes
        } else {
            CurrentScreen::Preview
        }
    }

    /// The screen that follows this one in the ring.
    pub fn next(self) -> (screen: CurrentScreen)
        ensures
            screen == self.following(),
    {
        Self::from_position((self.position() + 1) % SCREEN_COUNT)
    }
}

/// The ring leads from search to projects, to notes, to the preview and
/// back to search. Advancing four times from any screen leads back to it,
/// and no fewer advances do.
pub proof fn screen_ring_closes(screen: CurrentScreen)
    ensures
        CurrentScreen::Search.following() == CurrentScreen::Projects,
        CurrentScreen::Projects.following() == CurrentScreen::Notes,
        CurrentScreen::Notes.following() == CurrentScreen::Preview,
        CurrentScreen::Preview.following() == CurrentScreen::Search,
        screen.following().following().following().following() == screen,
        screen.following() != screen,
        screen.following().following() != screen,
        screen.following().following().following() != screen,
{
}

/// The key of a key event, as far as the browser tells keys apart.
#[derive(Debug, Clone, Copy, PartialEq, Eq, Structural)]
pub enum KeyInput {
    Char(char),
    Tab,
    Down,
    Up,
    Other,
}

/// Whether a key went down, is held, or came up.
#[derive(Debug, Clone, Copy, PartialEq, Eq, Structural)]
pub enum KeyKind {
    Press,
    Repeat,
    Release,
}

/// What the program around the browser has to do after a key was handled.
#[derive(Debug, Clone, Copy, PartialEq, Eq, Structural)]
pub enum Step {
    /// Draw again and wait for the next key.
    Continue,
    /// Leave the loop.
    Quit,
    /// The cursor came to rest on another note: read the note at this
    /// position in the list of notes and hand its lines to `load_note`.
    Preview(usize),
}

/// An index brought back into a list of `count` entries: below the list it
/// becomes the last entry, beyond the list the first. In an empty list it is 0.
pub open spec fn wrapped(index: int, count: int) -> int {
    if count <= 0 {
        0
    } else if index < 0 {
        count - 1
    } else if index >= count {
        0
    } else {
        index
    }
}

/// The index one step further down a list of `count` entries.
pub open spec fn moved_down(index: int, count: int) -> int {
    wrapped(index + 1, count)
}

/// The index one step further up a list of `count` entries.
pub open spec fn moved_up(index: int, count: int) -> int {
    wrapped(index - 1, count)
}

/// Moves an index one step down a list of `count` entries.
pub fn move_down(index: isize, count: usize) -> (next: isize)
    requires
        count <= isize::MAX,
    ensures
        next == moved_down(index as int, count as int),
{
    if count == 0 {
        return 0;
    }
    let last: isize = (count - 1) as isize;
    if index < -1 {
        last
    } else if index >= last {
        0
    } else {
        index + 1
    }
}

/// Moves an index one step up a list of `count` entries.
pub fn move_up(index: isize, count: usize) -> (next: isize)
    requires
        count <= isize::MAX,
    ensures
        next == moved_up(index as int, count as int),
{
    if count == 0 {
        return 0;
    }
    let last: isize = (count - 1) as isize;
    if index < 1 {
        last
    } else if index > count as isize {
        0
    } else {
        index - 1
    }
}

/// Moving down from the last entry leads to the first, and moving up from
/// the first leads to the last.
pub proof fn selection_wraps_around(count: int)
    requires
        count > 0,
    ensures
        moved_down(count - 1, count) == 0,
        moved_up(0, count) == count - 1,
{
}

/// Inside a list, a move changes the index by one; wherever it starts, it
/// ends on an entry of the list.
pub proof fn selection_stays_in_list(index: int, count: int)
    requires
        count > 0,
    ensures
        0 <= moved_down(index, count) < count,
        0 <= moved_up(index, count) < count,
        0 <= index < count - 1 ==> moved_down(index, count) == index + 1,
        0 < index < count ==> moved_up(index, count) == index - 1,
{
}

/// The positions below `count` that occur in `indices`, in rising order.
pub open spec fn listed_below(count: nat, indices: Seq<usize>) -> Seq<usize>
    recommends
        count <= usize::MAX,
    decreases count,
{
    if count == 0 {
        Seq::empty()
    } else {
        let before = listed_below((count - 1) as nat, indices);
        if indices.contains((count - 1) as usize) {
            before.push((count - 1) as usize)
        } else {
            before
        }
    }
}

/// `listed_below` is no longer than `count`, holds only positions below
/// `count` that occur in `indices`, and holds them in rising order.
pub proof fn listed_below_facts(count: nat, indices: Seq<usize>)
    requires
        count <= usize::MAX,
    ensures
        listed_below(count, indices).len() <= count,
        forall|k: int|
            0 <= k < listed_below(count, indices).len() ==> {
                &&& (#[trigger] listed_below(count, indices)[k]) < count
                &&& indices.contains(listed_below(count, indices)[k])
            },
        forall|j: int, k: int|
            0 <= j < k < listed_below(count, indices).len() ==> listed_below(count, indices)[j]
                < listed_below(count, indices)[k],
        forall|i: usize|
            i < count && indices.contains(i) ==> listed_below(count, indices).contains(i),
    decreases count,
{
    if count > 0 {
        let before = listed_below((count - 1) as nat, indices);
        listed_below_facts((count - 1) as nat, indices);
        let all = listed_below(count, indices);
        assert forall|j: int, k: int| 0 <= j < k < all.len() implies all[j] < all[k] by {
            if k < before.len() {
                assert(before[j] < before[k]);
            } else {
                assert(before[j] < count - 1);
            }
        }
        assert forall|i: usize| i < count && indices.contains(i) implies all.contains(i) by {
            if i < count - 1 {
                let k = choose|k: int| 0 <= k < before.len() && before[k] == i;
                assert(all[k] == i);
            } else {
                assert(all[all.len() - 1] == i);
            }
        }
    }
}

/// What is listed below `count` depends only on which positions below
/// `count` occur in `indices`.
pub proof fn listed_below_by_membership(count: nat, a: Seq<usize>, b: Seq<usize>)
    requires
        count <= usize::MAX,
        forall|i: usize| i < count ==> (a.contains(i) <==> b.contains(i)),
    ensures
        listed_below(count, a) == listed_below(count, b),
    decreases count,
{
    if count > 0 {
        listed_below_by_membership((count - 1) as nat, a, b);
    }
}

/// Positions that rise and stay below `count` are listed as they are. So
/// the notes panel of a project whose positions were assigned when the
/// catalog was built shows exactly those positions.
pub proof fn listed_below_keeps_rising_positions(count: nat, indices: Seq<usize>)
    requires
        count <= usize::MAX,
        forall|k: int| 0 <= k < indices.len() ==> (#[trigger] indices[k]) < count,
        forall|j: int, k: int| 0 <= j < k < indices.len() ==> indices[j] < indices[k],
    ensures
        listed_below(count, indices) == indices,
    decreases count,
{
    if count == 0 {
        assert(indices.len() == 0) by {
            if indices.len() > 0 {
                assert(indices[0] < count);
            }
        }
        assert(listed_below(count, indices) =~= indices);
    } else {
        let top = (count - 1) as usize;
        if indices.contains(top) {
            let at = choose|k: int| 0 <= k < indices.len() && indices[k] == top;
            assert(at == indices.len() - 1) by {
                if at < indices.len() - 1 {
                    assert(indices[at] < indices[indices.len() - 1]);
                    assert(indices[indices.len() - 1] < count);
                }
            }
            let front = indices.drop_last();
            assert forall|k: int| 0 <= k < front.len() implies (#[trigger] front[k]) < count
                - 1 by {
                assert(indices[k] < indices[at]);
            }
            listed_below_keeps_rising_positions((count - 1) as nat, front);
            assert forall|i: usize| i < count - 1 implies (indices.contains(i) <==> front.contains(
                i,
            )) by {
                if indices.contains(i) {
                    let k = choose|k: int| 0 <= k < indices.len() && indices[k] == i;
                    assert(front[k] == i);
                }
                if front.contains(i) {
                    let k = choose|k: int| 0 <= k < front.len() && front[k] == i;
                    assert(indices[k] == i);
                }
            }
            listed_below_by_membership((count - 1) as nat, indices, front);
            assert(listed_below(count, indices) =~= indices);
        } else {
            assert forall|k: int| 0 <= k < indices.len() implies (#[trigger] indices[k]) < count
                - 1 by {
                assert(indices.contains(indices[k]));
            }
            listed_below_keeps_rising_positions((count - 1) as nat, indices);
        }
    }
}

/// Whether `index` occurs in `indices`.
pub fn has_index(indices: &Vec<usize>, index: usize) -> (found: bool)
    ensures
        found == indices@.contains(index),
{
    let mut k: usize = 0;
    while k < indices.len()
        invariant
            k <= indices.len(),
            forall|j: int| 0 <= j < k ==> indices@[j] != index,
        decreases indices.len() - k,
    {
        if indices[k] == index {
            return true;
        }
        k += 1;
    }
    false
}

/// The positions below `count` that occur in `indices`, in rising order.
pub fn list_below(count: usize, indices: &Vec<usize>) -> (list: Vec<usize>)
    ensures
        list@ == listed_below(count as nat, indices@),
{
    let mut list: Vec<usize> = Vec::new();
    let mut i: usize = 0;
    while i < count
        invariant
            i <= count,
            list@ == listed_below(i as nat, indices@),
        decreases count - i,
    {
        if has_index(indices, i) {
            list.push(i);
        }
        i += 1;
    }
    list
}

/// The note that is read into the preview when the browser starts: the
/// first of the catalog, if the catalog has a note.
pub fn first_note(notes: &Vec<Note>) -> (position: Option<usize>)
    ensures
        position == if notes.len() > 0 {
            Some(0usize)
        } else {
            None
        },
{
    if notes.len() > 0 {
        Some(0)
    } else {
        None
    }
}

/// The state of the browser.
#[derive(Debug)]
pub struct App {
    pub current_screen: CurrentScreen,
    pub projects: Vec<Project>,
    pub notes: Vec<Note>,
    pub current_selected_project: isize,
    pub current_selected_note: isize,
    pub current_preview_line: isize,
    pub current_preview_lines: Vec<String>,
    pub config: Config,
}

impl App {
    /// The lists fit the index type, the project cursor is on a project
    /// (or at 0 where there is none), and no cursor is negative.
    pub open spec fn wf(&self) -> bool {
        &&& self.projects.len() <= isize::MAX
        &&& self.notes.len() <= isize::MAX
        &&& 0 <= self.current_selected_project
        &&& self.current_selected_project < self.projects.len() || self.current_selected_project
            == 0
        &&& 0 <= self.current_selected_note
        &&& 0 <= self.current_preview_line
    }

    /// Whether the state is well formed.
    pub fn is_wf(&self) -> (ok: bool)
        ensures
            ok == self.wf(),
    {
        self.projects.len() <= isize::MAX as usize && self.notes.len() <= isize::MAX as usize && 0
            <= self.current_selected_project && (self.current_selected_project == 0
            || (self.current_selected_project as usize) < self.projects.len()) && 0
            <= self.current_selected_note && 0 <= self.current_preview_line
    }

    /// The notes of the project under the cursor, as positions in the list
    /// of notes, in the order of that list. Empty where there is no project.
    pub open spec fn listed_notes(&self) -> Seq<usize> {
        if 0 <= self.current_selected_project < self.projects.len() {
            listed_below(
                self.notes.len() as nat,
                self.projects[self.current_selected_project as int].note_indices@,
            )
        } else {
            Seq::empty()
        }
    }

    /// The note under the cursor, as a position in the list of notes, if the
    /// note cursor is on a line of the notes panel.
    pub open spec fn note_under_cursor(&self) -> Option<usize> {
        if 0 <= self.current_selected_note < self.listed_notes().len() {
            Some(self.listed_notes()[self.current_selected_note as int])
        } else {
            None
        }
    }

    /// The browser as it starts: on the search screen, both cursors on the
    /// first line, and the preview at the top of the lines of the first
    /// note of the catalog. The last argument holds those lines, read from
    /// the note that the function `first_note` names; without them the
    /// preview is empty.
    pub fn new(
        notes: Vec<Note>,
        projects: Vec<Project>,
        config: Config,
        first_note: Option<Vec<String>>,
    ) -> (app: App)
        requires
            notes.len() <= isize::MAX,
            projects.len() <= isize::MAX,
        ensures
            app.wf(),
            app.current_screen == CurrentScreen::Search,
            app.projects == projects,
            app.notes == notes,
            app.config == config,
            app.current_selected_project == 0,
            app.current_selected_note == 0,
            app.current_preview_line == 0,
            app.current_preview_lines@ == match first_note {
                Some(lines) => lines@,
                None => Seq::<String>::empty(),
            },
    {
        let mut app = App {
            current_screen: CurrentScreen::Search,
            projects,
            notes,
            current_selected_project: 0,
            current_selected_note: 0,
            current_preview_line: 0,
            current_preview_lines: Vec::new(),
            config,
        };
        match first_note {
            Some(lines) => {
                app.load_note(lines);
            },
            None => {},
        }
        app
    }

    /// Moves the focus to the next screen of the ring.
    pub fn next_screen(&mut self)
        ensures
            final(self).current_screen == old(self).current_screen.following(),
            final(self).projects == old(self).projects,
            final(self).notes == old(self).notes,
            final(self).config == old(self).config,
            final(self).current_selected_project == old(self).current_selected_project,
            final(self).current_selected_note == old(self).current_selected_note,
            final(self).current_preview_line == old(self).current_preview_line,
            final(self).current_preview_lines == old(self).current_preview_lines,
            old(self).wf() ==> final(self).wf(),
    {
        self.current_screen = self.current_screen.next();
    }

    /// Puts the lines of a note into the preview and scrolls it to the top.
    pub fn load_note(&mut self, lines: Vec<String>)
        ensures
            final(self).current_preview_lines == lines,
            final(self).current_preview_line == 0,
            final(self).current_screen == old(self).current_screen,
            final(self).projects == old(self).projects,
            final(self).notes == old(self).notes,
            final(self).config == old(self).config,
            final(self).current_selected_project == old(self).current_selected_project,
            final(self).current_selected_note == old(self).current_selected_note,
            old(self).wf() ==> final(self).wf(),
    {
        self.current_preview_lines = lines;
        self.current_preview_line = 0;
    }

    /// Replaces the catalog after it was built anew and puts both cursors
    /// back on the first line: the old positions may name other entries now,
    /// or none.
    pub fn rebuild(&mut self, notes: Vec<Note>, projects: Vec<Project>)
        requires
            notes.len() <= isize::MAX,
            projects.len() <= isize::MAX,
        ensures
            0 <= old(self).current_preview_line ==> final(self).wf(),
            final(self).notes == notes,
            final(self).projects == projects,
            final(self).current_selected_project == 0,
            final(self).current_selected_note == 0,
            final(self).current_screen == old(self).current_screen,
            final(self).config == old(self).config,
            final(self).current_preview_line == old(self).current_preview_line,
            final(self).current_preview_lines == old(self).current_preview_lines,
    {
        self.notes = notes;
        self.projects = projects;
        self.current_selected_project = 0;
        self.current_selected_note = 0;
    }
    /// Whether a key event ends the session: `q` going down, on any screen.
    pub open spec fn quits_on(code: KeyInput, kind: KeyKind) -> bool {
        kind != KeyKind::Release && code == KeyInput::Char('q')
    }

    /// The screen in focus after a key event: the next one for `Tab`.
    pub open spec fn screen_after(&self, code: KeyInput, kind: KeyKind) -> CurrentScreen {
        if kind != KeyKind::Release && code == KeyInput::Tab {
            self.current_screen.following()
        } else {
            self.current_screen
        }
    }

    /// The project cursor after a key event: on the projects screen the
    /// arrow keys move it through the projects, with wraparound.
    pub open spec fn project_after(&self, code: KeyInput, kind: KeyKind) -> int {
        let now = self.current_selected_project as int;
        if kind != KeyKind::Release && self.current_screen == CurrentScreen::Projects {
            match code {
                KeyInput::Down => moved_down(now, self.projects.len() as int),
                KeyInput::Up => moved_up(now, self.projects.len() as int),
                _ => now,
            }
        } else {
            now
        }
    }

    /// The note cursor after a key event: on the notes screen the arrow keys
    /// move it through the notes of the project under the cursor, with
    /// wraparound.
    pub open spec fn note_after(&self, code: KeyInput, kind: KeyKind) -> int {
        let now = self.current_selected_note as int;
        if kind != KeyKind::Release && self.current_screen == CurrentScreen::Notes {
            match code {
                KeyInput::Down => moved_down(now, self.listed_notes().len() as int),
                KeyInput::Up => moved_up(now, self.listed_notes().len() as int),
                _ => now,
            }
        } else {
            now
        }
    }

    /// The notes of the project under the cursor, as positions in the list
    /// of notes, in the order of that list.
    pub fn notes_listed(&self) -> (list: Vec<usize>)
        ensures
            list@ == self.listed_notes(),
    {
        if 0 <= self.current_selected_project && (self.current_selected_project as usize)
            < self.projects.len() {
            list_below(
                self.notes.len(),
                &self.projects[self.current_selected_project as usize].note_indices,
            )
        } else {
            Vec::new()
        }
    }

    /// The note under the cursor, as a position in the list of notes.
    pub fn selected_note(&self) -> (note: Option<usize>)
        ensures
            note == self.note_under_cursor(),
            note matches Some(i) ==> i < self.notes.len(),
    {
        let list = self.notes_listed();
        proof {
            if 0 <= self.current_selected_project < self.projects.len() {
                listed_below_facts(
                    self.notes.len() as nat,
                    self.projects[self.current_selected_project as int].note_indices@,
                );
            }
        }
        if 0 <= self.current_selected_note && (self.current_selected_note as usize) < list.len() {
            Some(list[self.current_selected_note as usize])
        } else {
            None
        }
    }

    /// Handles one key event. Key releases are passed over; `q` ends the
    /// session; `Tab` moves the focus to the next screen; on the projects and
    /// notes screens the arrow keys move the cursor of that screen. Every
    /// other key changes nothing.
    ///
    /// The result asks for a preview when the cursor has come to rest on a
    /// note other than the one it was on.
    pub fn on_key(&mut self, code: KeyInput, kind: KeyKind) -> (step: Step)
        requires
            old(self).wf(),
        ensures
            final(self).wf(),
            final(self).current_screen == old(self).screen_after(code, kind),
            final(self).current_selected_project == old(self).project_after(code, kind),
            final(self).current_selected_note == old(self).note_after(code, kind),
            final(self).projects == old(self).projects,
            final(self).notes == old(self).notes,
            final(self).config == old(self).config,
            final(self).current_preview_line == old(self).current_preview_line,
            final(self).current_preview_lines == old(self).current_preview_lines,
            step == Step::Quit <==> Self::quits_on(code, kind),
            step matches Step::Preview(i) ==> final(self).note_under_cursor() == Some(i) && i
                < final(self).notes.len(),
            step is Preview <==> {
                &&& !Self::quits_on(code, kind)
                &&& final(self).note_under_cursor() is Some
                &&& final(self).note_under_cursor() != old(self).note_under_cursor()
            },
    {
        if kind == KeyKind::Release {
            return Step::Continue;
        }
        let before = self.selected_note();
        match code {
            KeyInput::Char(c) => {
                if c == 'q' {
                    return Step::Quit;
                }
            },
            KeyInput::Tab => {
                self.next_screen();
            },
            KeyInput::Down => {
                if self.current_screen == CurrentScreen::Projects {
                    self.current_selected_project =
                    move_down(self.current_selected_project, self.projects.len());
                } else if self.current_screen == CurrentScreen::Notes {
                    let list = self.notes_listed();
                    proof {
                        self.listed_notes_fit();
                    }
                    self.current_selected_note = move_down(self.current_selected_note, list.len());
                }
            },
            KeyInput::Up => {
                if self.current_screen == CurrentScreen::Projects {
                    self.current_selected_project =
                    move_up(self.current_selected_project, self.projects.len());
                } else if self.current_screen == CurrentScreen::Notes {
                    let list = self.notes_listed();
                    proof {
                        self.listed_notes_fit();
                    }
                    self.current_selected_note = move_up(self.current_selected_note, list.len());
                }
            },
            KeyInput::Other => {},
        }
        let after = self.selected_note();
        match after {
            Some(i) => {
                let changed = match before {
                    Some(j) => i != j,
                    None => true,
                };
                if changed {
                    Step::Preview(i)
                } else {
                    Step::Continue
                }
            },
            None => Step::Continue,
        }
    }

    /// The notes panel never lists more lines than there are notes.
    pub proof fn listed_notes_fit(&self)
        ensures
            self.listed_notes().len() <= self.notes.len(),
            forall|k: int|
                0 <= k < self.listed_notes().len() ==> (#[trigger] self.listed_notes()[k])
                    < self.notes.len(),
    {
        if 0 <= self.current_selected_project < self.projects.len() {
            listed_below_facts(
                self.notes.len() as nat,
                self.projects[self.current_selected_project as int].note_indices@,
            );
        }
    }
}

} // verus!
