use parknotes::catalog::{create_objects, EntryKind, WalkEntry};
use parknotes::path::PathParts;
use parknotes::structs::{Config, Note, Project};
use parknotes::tui::app::{
    first_note, list_below, move_down, move_up, App, CurrentScreen, KeyInput, KeyKind, Step,
    SCREEN_COUNT,
};
use parknotes::tui::scroll::scroll_offset;
use parknotes::tui::ui::{
    get_border_color, notes_panel, preview_panel, projects_panel, scrollbar_area, search_ui, ui,
    Area, Color, Style,
};

fn rel(names: &[&str]) -> PathParts {
    PathParts::new(names.iter().map(|n| n.to_string()).collect())
}

fn settings(buffer: u16) -> Config {
    Config {
        root_dir: String::from("/tmp/notes"),
        ignore_dirs: vec![String::from(".git")],
        menu_scroll_buffer: buffer,
    }
}

/// Notes `a.md`, `sub/b.md`, `sub/c.md`, `other/d.md`; projects `sub` and `other`.
fn sample() -> App {
    let notes = vec![
        Note::new(rel(&["a.md"])),
        Note::new(rel(&["sub", "b.md"])),
        Note::new(rel(&["sub", "c.md"])),
        Note::new(rel(&["other", "d.md"])),
    ];
    let projects = vec![
        Project {
            relative_path: rel(&["sub"]),
            note_indices: vec![1, 2],
        },
        Project {
            relative_path: rel(&["other"]),
            note_indices: vec![3],
        },
    ];
    App::new(notes, projects, settings(1), None)
}

fn press(app: &mut App, code: KeyInput) -> Step {
    app.on_key(code, KeyKind::Press)
}

#[test]
fn scroll_offset_is_pinned_at_the_top() {
    assert_eq!(scroll_offset(0, 100, 10), 0);
    assert_eq!(scroll_offset(9, 100, 10), 0);
    assert_eq!(scroll_offset(-3, 100, 10), 0);
}

#[test]
fn scroll_offset_follows_the_cursor_in_the_middle() {
    assert_eq!(scroll_offset(10, 100, 10), 0);
    assert_eq!(scroll_offset(11, 100, 10), 1);
    assert_eq!(scroll_offset(50, 100, 10), 40);
    assert_eq!(scroll_offset(90, 100, 10), 80);
}

#[test]
fn scroll_offset_is_pinned_at_the_bottom() {
    assert_eq!(scroll_offset(91, 100, 10), 80);
    assert_eq!(scroll_offset(99, 100, 10), 80);
    assert_eq!(scroll_offset(1000, 100, 10), 80);
}

#[test]
fn scroll_offset_of_a_short_list_is_zero() {
    for selected in 0..15 {
        assert_eq!(scroll_offset(selected, 15, 10), 0);
    }
    assert_eq!(scroll_offset(0, 0, 10), 0);
    assert_eq!(scroll_offset(0, 0, 0), 0);
}

#[test]
fn scroll_offset_without_buffer_is_the_cursor() {
    assert_eq!(scroll_offset(0, 5, 0), 0);
    assert_eq!(scroll_offset(4, 5, 0), 4);
    assert_eq!(scroll_offset(5, 5, 0), 5);
    assert_eq!(scroll_offset(6, 5, 0), 5);
}

#[test]
fn scroll_offset_never_decreases_and_stays_on_a_line() {
    for len in 0..40usize {
        for buffer in 0..12u16 {
            let mut before = 0usize;
            for selected in -2..45isize {
                let offset = scroll_offset(selected, len, buffer);
                assert!(offset >= before);
                assert!(offset <= len);
                if buffer >= 1 || (selected as i64) < (len as i64) || len == 0 {
                    assert!(offset <= len.saturating_sub(1));
                }
                before = offset;
            }
        }
    }
}

#[test]
fn selection_wraps_at_both_ends() {
    assert_eq!(move_down(4, 5), 0);
    assert_eq!(move_up(0, 5), 4);
    assert_eq!(move_down(0, 1), 0);
    assert_eq!(move_up(0, 1), 0);
}

#[test]
fn selection_moves_by_one_inside_the_list() {
    assert_eq!(move_down(0, 5), 1);
    assert_eq!(move_down(3, 5), 4);
    assert_eq!(move_up(4, 5), 3);
    assert_eq!(move_up(1, 5), 0);
}

#[test]
fn selection_in_an_empty_list_stays_at_zero() {
    assert_eq!(move_down(0, 0), 0);
    assert_eq!(move_up(0, 0), 0);
    assert_eq!(move_down(7, 0), 0);
}

#[test]
fn selection_outside_the_list_comes_back_into_it() {
    assert_eq!(move_down(9, 3), 0);
    assert_eq!(move_up(9, 3), 0);
    assert_eq!(move_up(4, 3), 0);
    assert_eq!(move_up(3, 3), 2);
    assert_eq!(move_down(-5, 3), 2);
    assert_eq!(move_down(-1, 3), 0);
    assert_eq!(move_up(-5, 3), 2);
}

#[test]
fn four_advances_return_to_search() {
    let mut app = sample();
    assert_eq!(app.current_screen, CurrentScreen::Search);
    app.next_screen();
    assert_eq!(app.current_screen, CurrentScreen::Projects);
    app.next_screen();
    assert_eq!(app.current_screen, CurrentScreen::Notes);
    app.next_screen();
    assert_eq!(app.current_screen, CurrentScreen::Preview);
    app.next_screen();
    assert_eq!(app.current_screen, CurrentScreen::Search);
}

#[test]
fn tab_advances_the_screen_on_every_screen() {
    let mut app = sample();
    for expected in [
        CurrentScreen::Projects,
        CurrentScreen::Notes,
        CurrentScreen::Preview,
        CurrentScreen::Search,
    ] {
        assert_eq!(press(&mut app, KeyInput::Tab), Step::Continue);
        assert_eq!(app.current_screen, expected);
    }
}

#[test]
fn new_app_starts_on_search_with_cursors_at_zero() {
    let app = sample();
    assert_eq!(app.current_screen, CurrentScreen::Search);
    assert_eq!(app.current_selected_project, 0);
    assert_eq!(app.current_selected_note, 0);
    assert_eq!(app.current_preview_line, 0);
    assert!(app.current_preview_lines.is_empty());
    assert_eq!(app.notes.len(), 4);
    assert_eq!(app.projects.len(), 2);
}

#[test]
fn q_quits_on_every_screen() {
    let mut app = sample();
    for _ in 0..4 {
        assert_eq!(press(&mut app, KeyInput::Char('q')), Step::Quit);
        app.next_screen();
    }
}

#[test]
fn released_keys_are_passed_over() {
    let mut app = sample();
    assert_eq!(app.on_key(KeyInput::Char('q'), KeyKind::Release), Step::Continue);
    assert_eq!(app.on_key(KeyInput::Tab, KeyKind::Release), Step::Continue);
    assert_eq!(app.current_screen, CurrentScreen::Search);
}

#[test]
fn repeated_keys_count_as_presses() {
    let mut app = sample();
    assert_eq!(app.on_key(KeyInput::Tab, KeyKind::Repeat), Step::Continue);
    assert_eq!(app.current_screen, CurrentScreen::Projects);
}

#[test]
fn other_keys_change_nothing() {
    let mut app = sample();
    app.next_screen();
    assert_eq!(press(&mut app, KeyInput::Other), Step::Continue);
    assert_eq!(press(&mut app, KeyInput::Char('x')), Step::Continue);
    assert_eq!(app.current_screen, CurrentScreen::Projects);
    assert_eq!(app.current_selected_project, 0);
    assert_eq!(app.current_selected_note, 0);
}

#[test]
fn arrows_do_nothing_on_search_and_preview() {
    let mut app = sample();
    assert_eq!(press(&mut app, KeyInput::Down), Step::Continue);
    assert_eq!(press(&mut app, KeyInput::Up), Step::Continue);
    assert_eq!(app.current_selected_project, 0);
    assert_eq!(app.current_selected_note, 0);
    app.current_screen = CurrentScreen::Preview;
    assert_eq!(press(&mut app, KeyInput::Down), Step::Continue);
    assert_eq!(app.current_selected_project, 0);
    assert_eq!(app.current_selected_note, 0);
}

#[test]
fn arrows_move_the_project_cursor_with_wraparound() {
    let mut app = sample();
    app.next_screen();
    assert_eq!(press(&mut app, KeyInput::Down), Step::Preview(3));
    assert_eq!(app.current_selected_project, 1);
    assert_eq!(app.current_selected_note, 0);
    assert_eq!(press(&mut app, KeyInput::Down), Step::Preview(1));
    assert_eq!(app.current_selected_project, 0);
    assert_eq!(press(&mut app, KeyInput::Up), Step::Preview(3));
    assert_eq!(app.current_selected_project, 1);
}

#[test]
fn arrows_move_the_note_cursor_within_the_project() {
    let mut app = sample();
    app.next_screen();
    app.next_screen();
    assert_eq!(app.selected_note(), Some(1));
    assert_eq!(press(&mut app, KeyInput::Down), Step::Preview(2));
    assert_eq!(app.current_selected_note, 1);
    assert_eq!(press(&mut app, KeyInput::Down), Step::Preview(1));
    assert_eq!(app.current_selected_note, 0);
    assert_eq!(press(&mut app, KeyInput::Up), Step::Preview(2));
    assert_eq!(app.current_selected_note, 1);
    assert_eq!(app.current_selected_project, 0);
}

#[test]
fn note_cursor_is_kept_when_the_project_changes() {
    let mut app = sample();
    app.current_screen = CurrentScreen::Notes;
    press(&mut app, KeyInput::Down);
    assert_eq!(app.current_selected_note, 1);
    app.current_screen = CurrentScreen::Projects;
    assert_eq!(press(&mut app, KeyInput::Down), Step::Continue);
    assert_eq!(app.current_selected_note, 1);
    assert_eq!(app.selected_note(), None);
    app.current_screen = CurrentScreen::Notes;
    assert_eq!(press(&mut app, KeyInput::Down), Step::Preview(3));
    assert_eq!(app.current_selected_note, 0);
}

#[test]
fn arrows_in_an_empty_catalog_keep_the_cursors_at_zero() {
    let mut app = App::new(vec![], vec![], settings(10), None);
    app.current_screen = CurrentScreen::Projects;
    assert_eq!(press(&mut app, KeyInput::Down), Step::Continue);
    assert_eq!(press(&mut app, KeyInput::Up), Step::Continue);
    assert_eq!(app.current_selected_project, 0);
    app.current_screen = CurrentScreen::Notes;
    assert_eq!(press(&mut app, KeyInput::Down), Step::Continue);
    assert_eq!(press(&mut app, KeyInput::Up), Step::Continue);
    assert_eq!(app.current_selected_note, 0);
    assert_eq!(app.selected_note(), None);
}

#[test]
fn load_note_fills_the_preview_and_scrolls_to_the_top() {
    let mut app = sample();
    app.current_preview_line = 7;
    app.load_note(vec![String::from("# title"), String::from("text")]);
    assert_eq!(app.current_preview_lines, vec!["# title", "text"]);
    assert_eq!(app.current_preview_line, 0);
    assert_eq!(app.current_selected_note, 0);
}

#[test]
fn rebuild_replaces_the_catalog_and_resets_the_cursors() {
    let mut app = sample();
    app.current_screen = CurrentScreen::Projects;
    press(&mut app, KeyInput::Down);
    app.current_selected_note = 3;
    app.rebuild(vec![Note::new(rel(&["z.md"]))], vec![]);
    assert_eq!(app.current_selected_project, 0);
    assert_eq!(app.current_selected_note, 0);
    assert_eq!(app.notes.len(), 1);
    assert_eq!(app.projects.len(), 0);
    assert_eq!(app.current_screen, CurrentScreen::Projects);
}

#[test]
fn list_below_keeps_the_listed_positions_in_order() {
    assert_eq!(list_below(5, &vec![3, 1, 9, 1]), vec![1, 3]);
    assert_eq!(list_below(0, &vec![0]), Vec::<usize>::new());
    assert_eq!(list_below(3, &vec![]), Vec::<usize>::new());
}

#[test]
fn border_is_green_only_for_the_screen_in_focus() {
    let mut app = sample();
    let green = Style {
        fg: Some(Color::Green),
        bg: None,
    };
    let plain = Style { fg: None, bg: None };
    assert_eq!(get_border_color(&app, CurrentScreen::Search), green);
    assert_eq!(get_border_color(&app, CurrentScreen::Notes), plain);
    app.next_screen();
    assert_eq!(get_border_color(&app, CurrentScreen::Search), plain);
    assert_eq!(get_border_color(&app, CurrentScreen::Projects), green);
}

#[test]
fn blocks_carry_their_titles() {
    let app = sample();
    assert_eq!(search_ui(&app).title, " Search ");
    assert_eq!(preview_panel(&app).title, " Preview ");
    assert_eq!(projects_panel(&app).block.title, " Projects ");
    assert_eq!(notes_panel(&app).block.title, " Notes ");
    assert_eq!(search_ui(&app).border_style.fg, Some(Color::Green));
    assert_eq!(preview_panel(&app).border_style.fg, None);
}

#[test]
fn projects_panel_lists_every_project_and_marks_the_cursor() {
    let mut app = sample();
    app.current_selected_project = 1;
    let view = projects_panel(&app);
    let texts: Vec<&str> = view.lines.iter().map(|l| l.text.as_str()).collect();
    assert_eq!(texts, vec!["sub", "other"]);
    assert_eq!(view.lines[0].style.fg, Some(Color::White));
    assert_eq!(view.lines[0].style.bg, None);
    assert_eq!(view.lines[1].style.fg, Some(Color::Black));
    assert_eq!(view.lines[1].style.bg, Some(Color::White));
    assert_eq!(view.scroll, 0);
    assert_eq!(view.scrollbar_length, 2);
    assert_eq!(view.scrollbar_position, 1);
}

#[test]
fn notes_panel_lists_the_notes_of_the_selected_project() {
    let mut app = sample();
    app.current_selected_note = 1;
    let view = notes_panel(&app);
    let texts: Vec<&str> = view.lines.iter().map(|l| l.text.as_str()).collect();
    assert_eq!(texts, vec!["b.md", "c.md"]);
    assert_eq!(view.lines[0].style.bg, None);
    assert_eq!(view.lines[1].style.bg, Some(Color::White));
    assert_eq!(view.scrollbar_length, 2);
    assert_eq!(view.scrollbar_position, 1);
    app.current_selected_project = 1;
    let view = notes_panel(&app);
    let texts: Vec<&str> = view.lines.iter().map(|l| l.text.as_str()).collect();
    assert_eq!(texts, vec!["d.md"]);
}

#[test]
fn notes_panel_is_empty_without_projects() {
    let app = App::new(vec![Note::new(rel(&["a.md"]))], vec![], settings(10), None);
    let view = notes_panel(&app);
    assert!(view.lines.is_empty());
    assert_eq!(view.scroll, 0);
    assert_eq!(view.scrollbar_length, 0);
}

#[test]
fn panels_scroll_with_the_cursor() {
    let projects: Vec<Project> = (0..30)
        .map(|i| Project::new(rel(&[&format!("p{}", i)])))
        .collect();
    let mut app = App::new(vec![], projects, settings(5), None);
    app.current_selected_project = 12;
    assert_eq!(projects_panel(&app).scroll, 7);
    app.current_selected_project = 29;
    assert_eq!(projects_panel(&app).scroll, 20);
    app.current_selected_project = 2;
    assert_eq!(projects_panel(&app).scroll, 0);
}

#[test]
fn whole_screen_holds_all_four_panels() {
    let mut app = sample();
    app.current_screen = CurrentScreen::Notes;
    let view = ui(&app);
    assert_eq!(view.search.title, " Search ");
    assert_eq!(view.center.projects.block.title, " Projects ");
    assert_eq!(view.center.notes.block.title, " Notes ");
    assert_eq!(view.center.preview.title, " Preview ");
    assert_eq!(view.center.notes.block.border_style.fg, Some(Color::Green));
    assert_eq!(view.center.projects.block.border_style.fg, None);
    assert_eq!(view.center.projects.lines.len(), 2);
    assert_eq!(view.center.notes.lines.len(), 2);
}

#[test]
fn scrollbar_lies_inside_the_border() {
    let panel = Area {
        x: 1,
        y: 2,
        width: 3,
        height: 4,
    };
    assert_eq!(
        scrollbar_area(panel),
        Area {
            x: 1,
            y: 3,
            width: 3,
            height: 2
        }
    );
}

#[test]
fn scrollbar_of_a_flat_panel_has_no_area() {
    let panel = Area {
        x: 5,
        y: 6,
        width: 7,
        height: 1,
    };
    assert_eq!(
        scrollbar_area(panel),
        Area {
            x: 0,
            y: 0,
            width: 0,
            height: 0
        }
    );
    let edge = Area {
        x: 5,
        y: u16::MAX,
        width: 7,
        height: 2,
    };
    assert_eq!(
        scrollbar_area(edge),
        Area {
            x: 5,
            y: u16::MAX,
            width: 7,
            height: 0
        }
    );
}

#[test]
fn notes_panel_of_a_built_catalog_shows_what_the_project_holds() {
    let root = rel(&["/", "r"]);
    let entry = |names: &[&str], kind: EntryKind| WalkEntry {
        path: root.join(&rel(names)),
        kind,
    };
    let entries = vec![
        entry(&["top.md"], EntryKind::File),
        entry(&["p"], EntryKind::Directory),
        entry(&["p", "one.md"], EntryKind::File),
        entry(&["q"], EntryKind::Directory),
        entry(&["q", "two.md"], EntryKind::File),
        entry(&["p", "deep"], EntryKind::Directory),
        entry(&["p", "deep", "three.md"], EntryKind::File),
    ];
    let (notes, projects) = create_objects(&settings(2), &root, &entries).unwrap();
    let mut app = App::new(notes, projects, settings(2), None);
    for project in 0..app.projects.len() {
        app.current_selected_project = project as isize;
        assert_eq!(app.notes_listed(), app.projects[project].note_indices);
    }
    app.current_selected_project = 0;
    let texts: Vec<String> = notes_panel(&app)
        .lines
        .iter()
        .map(|l| l.text.clone())
        .collect();
    assert_eq!(texts, vec!["one.md", "three.md"]);
}

#[test]
fn scroll_is_held_at_what_a_terminal_can_count() {
    let projects: Vec<Project> = (0..70000)
        .map(|i| Project::new(rel(&[&format!("p{}", i)])))
        .collect();
    let mut app = App::new(vec![], projects, settings(1), None);
    app.current_selected_project = 69000;
    let view = projects_panel(&app);
    assert_eq!(view.scroll, u16::MAX);
    assert_eq!(view.scrollbar_position, 69000);
    app.current_selected_project = 65000;
    assert_eq!(projects_panel(&app).scroll, 64999);
}

#[test]
fn screens_have_their_places_in_the_ring() {
    let ring = [
        CurrentScreen::Search,
        CurrentScreen::Projects,
        CurrentScreen::Notes,
        CurrentScreen::Preview,
    ];
    for (place, screen) in ring.iter().enumerate() {
        assert_eq!(screen.position(), place);
        assert_eq!(CurrentScreen::from_position(place), *screen);
        assert_eq!(screen.next(), ring[(place + 1) % SCREEN_COUNT]);
    }
    assert_eq!(SCREEN_COUNT, 4);
    assert_eq!(CurrentScreen::from_position(9), CurrentScreen::Preview);
}

#[test]
fn the_first_note_of_the_catalog_is_read_at_start() {
    let notes = vec![Note::new(rel(&["a.md"])), Note::new(rel(&["p", "b.md"]))];
    assert_eq!(first_note(&notes), Some(0));
    assert_eq!(first_note(&vec![]), None);
}

#[test]
fn new_app_shows_the_first_note_in_the_preview() {
    let notes = vec![Note::new(rel(&["a.md"])), Note::new(rel(&["p", "b.md"]))];
    let lines = vec![String::from("# a"), String::from(""), String::from("text")];
    let app = App::new(notes, vec![], settings(10), Some(lines));
    assert_eq!(app.current_preview_lines, vec!["# a", "", "text"]);
    assert_eq!(app.current_preview_line, 0);
    assert_eq!(app.current_screen, CurrentScreen::Search);
    assert_eq!(app.current_selected_project, 0);
    assert_eq!(app.current_selected_note, 0);
    assert_eq!(app.notes.len(), 2);
    assert!(app.projects.is_empty());
}

#[test]
fn new_app_without_notes_has_an_empty_preview() {
    let app = App::new(vec![], vec![], settings(10), None);
    assert!(app.current_preview_lines.is_empty());
    assert_eq!(app.current_preview_line, 0);
}
