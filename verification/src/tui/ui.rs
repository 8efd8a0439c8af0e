//! What the panels of the browser show, as plain values for a terminal
//! toolkit to draw.

use vstd::prelude::*;
use crate::path::joined;
use crate::tui::app::{App, CurrentScreen};
use crate::tui::scroll::{scroll_offset, scroll_offset_of};

verus! {

/// The colours the browser uses.
#[derive(Debug, Clone, Copy, PartialEq, Eq, Structural)]
pub enum Color {
    Green,
    White,
    Black,
}

/// Foreground and background of a piece of the screen; `None` leaves the
/// terminal's own colour.
#[derive(Debug, Clone, Copy, PartialEq, Eq, Structural)]
pub struct Style {
    pub fg: Option<Color>,
    pub bg: Option<Color>,
}

/// A rectangle of terminal cells.
#[derive(Debug, Clone, Copy, PartialEq, Eq, Structural)]
pub struct Area {
    pub x: u16,
    pub y: u16,
    pub width: u16,
    pub height: u16,
}

/// One line of a menu.
#[derive(Debug)]
pub struct MenuLine {
    pub text: String,
    pub style: Style,
}

/// A bordered block with a title.
#[derive(Debug)]
pub struct BlockView {
    pub title: String,
    pub border_style: Style,
}

/// A bordered menu: its lines, how far it is scrolled, and what its
/// scrollbar shows.
#[derive(Debug)]
pub struct PanelView {
    pub block: BlockView,
    pub lines: Vec<MenuLine>,
    /// The number of lines scrolled out of sight above the first visible
    /// one, as far as a terminal can count.
    pub scroll: u16,
    /// The length of the content the scrollbar stands for.
    pub scrollbar_length: usize,
    /// The position in the content that the scrollbar marks.
    pub scrollbar_position: usize,
}

/// How much of a row or a column a panel takes.
#[derive(Debug, Clone, Copy, PartialEq, Eq, Structural)]
pub enum Extent {
    /// As many cells as given.
    Length(u16),
    /// At least as many cells as given, and what is left over.
    Min(u16),
    /// So many hundredths of the whole.
    Percentage(u16),
}

/// The three panels of the middle row, left to right.
#[derive(Debug)]
pub struct CenterView {
    pub projects: PanelView,
    pub notes: PanelView,
    pub preview: BlockView,
}

/// The whole screen: the search bar above the middle row.
#[derive(Debug)]
pub struct ScreenView {
    pub search: BlockView,
    pub center: CenterView,
}

/// The border of the panel in focus is green; the others keep the
/// terminal's colour.
pub open spec fn border_style_of(focused: bool) -> Style {
    if focused {
        Style { fg: Some(Color::Green), bg: None }
    } else {
        Style { fg: None, bg: None }
    }
}

/// The line under the cursor is black on white; the others are white.
pub open spec fn line_style_of(selected: bool) -> Style {
    if selected {
        Style { fg: Some(Color::Black), bg: Some(Color::White) }
    } else {
        Style { fg: Some(Color::White), bg: None }
    }
}

/// Where a cursor stands for the scrollbar: a cursor above the list counts
/// as on its first line.
pub open spec fn scrollbar_position_of(selected: int) -> int {
    if selected < 0 {
        0
    } else {
        selected
    }
}

/// A number of lines as a terminal counts them: held at the largest number
/// of lines that a terminal can have.
pub open spec fn counted(lines: int) -> int {
    if lines > u16::MAX {
        u16::MAX as int
    } else {
        lines
    }
}

/// The style of the border of a panel.
pub fn border_style(focused: bool) -> (style: Style)
    ensures
        style == border_style_of(focused),
{
    if focused {
        Style { fg: Some(Color::Green), bg: None }
    } else {
        Style { fg: None, bg: None }
    }
}

/// The style of the border of the panel of screen `check_variant`: that of
/// a panel in focus exactly if that screen is the current one.
pub fn get_border_color(app: &App, check_variant: CurrentScreen) -> (style: Style)
    ensures
        style == border_style_of(app.current_screen == check_variant),
{
    border_style(app.current_screen == check_variant)
}

/// The style of a menu line.
pub fn line_style(selected: bool) -> (style: Style)
    ensures
        style == line_style_of(selected),
{
    if selected {
        Style { fg: Some(Color::Black), bg: Some(Color::White) }
    } else {
        Style { fg: Some(Color::White), bg: None }
    }
}

/// The search bar.
pub fn search_ui(app: &App) -> (view: BlockView)
    ensures
        view.title@ == " Search "@,
        view.border_style == border_style_of(app.current_screen == CurrentScreen::Search),
{
    BlockView {
        title: String::from_str(" Search "),
        border_style: get_border_color(app, CurrentScreen::Search),
    }
}

impl PanelView {
    /// This is the menu with the given title and line texts, with the cursor
    /// on line `cursor`, in focus or not, scrolled as a menu that keeps
    /// `buffer` lines visible around the cursor.
    pub open spec fn is_menu(
        &self,
        title: Seq<char>,
        focused: bool,
        texts: Seq<Seq<char>>,
        cursor: int,
        buffer: int,
    ) -> bool {
        &&& self.block.title@ == title
        &&& self.block.border_style == border_style_of(focused)
        &&& self.lines.len() == texts.len()
        &&& forall|i: int|
            0 <= i < texts.len() ==> {
                &&& (#[trigger] self.lines[i]).text@ == texts[i]
                &&& self.lines[i].style == line_style_of(cursor == i)
            }
        &&& self.scroll == counted(scroll_offset_of(cursor, texts.len() as int, buffer))
        &&& self.scrollbar_length == texts.len()
        &&& self.scrollbar_position == scrollbar_position_of(cursor)
    }
}

/// Lays out a menu: one line for each text, the line under the cursor
/// standing out, the scroll offset and the scrollbar following the cursor.
pub fn menu(title: &str, focused: bool, texts: Vec<String>, cursor: isize, buffer: u16) -> (view:
    PanelView)
    ensures
        view.is_menu(title@, focused, texts.deep_view(), cursor as int, buffer as int),
{
    let mut lines: Vec<MenuLine> = Vec::new();
    let mut i: usize = 0;
    while i < texts.len()
        invariant
            i <= texts.len(),
            lines.len() == i,
            forall|j: int|
                0 <= j < i ==> {
                    &&& (#[trigger] lines[j]).text@ == texts[j]@
                    &&& lines[j].style == line_style_of(cursor == j)
                },
        decreases texts.len() - i,
    {
        let selected = cursor >= 0 && cursor as usize == i;
        lines.push(MenuLine { text: texts[i].clone(), style: line_style(selected) });
        i += 1;
    }
    let offset = scroll_offset(cursor, texts.len(), buffer);
    PanelView {
        block: BlockView { title: String::from_str(title), border_style: border_style(focused) },
        lines,
        scroll: if offset > u16::MAX as usize {
            u16::MAX
        } else {
            offset as u16
        },
        scrollbar_length: texts.len(),
        scrollbar_position: if cursor < 0 {
            0
        } else {
            cursor as usize
        },
    }
}

/// The texts of the lines of the projects panel: the path of each project,
/// in the order of the catalog.
pub open spec fn project_texts(app: &App) -> Seq<Seq<char>> {
    Seq::new(app.projects.len() as nat, |i: int| joined(app.projects[i].relative_path@))
}

/// The texts of the lines of the notes panel: the file name of each note of
/// the project under the cursor, in the order of the catalog.
pub open spec fn note_texts(app: &App) -> Seq<Seq<char>> {
    Seq::new(
        app.listed_notes().len(),
        |k: int| app.notes[app.listed_notes()[k] as int].filename@,
    )
}

/// The projects panel: one line for each project, the project cursor on it.
pub fn projects_panel(app: &App) -> (view: PanelView)
    ensures
        view.is_menu(
            " Projects "@,
            app.current_screen == CurrentScreen::Projects,
            project_texts(app),
            app.current_selected_project as int,
            app.config.menu_scroll_buffer as int,
        ),
{
    let mut texts: Vec<String> = Vec::new();
    let mut i: usize = 0;
    while i < app.projects.len()
        invariant
            i <= app.projects.len(),
            texts.len() == i,
            forall|j: int| 0 <= j < i ==> (#[trigger] texts[j])@ == project_texts(app)[j],
        decreases app.projects.len() - i,
    {
        texts.push(app.projects[i].relative_path.display());
        i += 1;
    }
    assert(texts.deep_view() =~= project_texts(app));
    menu(
        " Projects ",
        app.current_screen == CurrentScreen::Projects,
        texts,
        app.current_selected_project,
        app.config.menu_scroll_buffer,
    )
}

/// The notes panel: one line for each note of the project under the project
/// cursor, the note cursor on it.
pub fn notes_panel(app: &App) -> (view: PanelView)
    ensures
        view.is_menu(
            " Notes "@,
            app.current_screen == CurrentScreen::Notes,
            note_texts(app),
            app.current_selected_note as int,
            app.config.menu_scroll_buffer as int,
        ),
{
    let list = app.notes_listed();
    proof {
        app.listed_notes_fit();
    }
    let mut texts: Vec<String> = Vec::new();
    let mut k: usize = 0;
    while k < list.len()
        invariant
            k <= list.len(),
            texts.len() == k,
            list@ == app.listed_notes(),
            forall|j: int| 0 <= j < list.len() ==> (#[trigger] list[j]) < app.notes.len(),
            forall|j: int| 0 <= j < k ==> (#[trigger] texts[j])@ == note_texts(app)[j],
        decreases list.len() - k,
    {
        texts.push(app.notes[list[k]].filename.clone());
        k += 1;
    }
    assert(texts.deep_view() =~= note_texts(app));
    menu(
        " Notes ",
        app.current_screen == CurrentScreen::Notes,
        texts,
        app.current_selected_note,
        app.config.menu_scroll_buffer,
    )
}

/// The frame of the preview.
pub fn preview_panel(app: &App) -> (view: BlockView)
    ensures
        view.title@ == " Preview "@,
        view.border_style == border_style_of(app.current_screen == CurrentScreen::Preview),
{
    BlockView {
        title: String::from_str(" Preview "),
        border_style: get_border_color(app, CurrentScreen::Preview),
    }
}

/// The middle row: projects, notes and preview, left to right.
pub fn center_panel_ui(app: &App) -> (view: CenterView)
    ensures
        view.is_center_of(app),
{
    CenterView {
        projects: projects_panel(app),
        notes: notes_panel(app),
        preview: preview_panel(app),
    }
}

/// The whole screen.
pub fn ui(app: &App) -> (view: ScreenView)
    ensures
        view.search.title@ == " Search "@,
        view.search.border_style == border_style_of(app.current_screen == CurrentScreen::Search),
        view.center.is_center_of(app),
{
    ScreenView { search: search_ui(app), center: center_panel_ui(app) }
}

impl CenterView {
    /// These are the three panels of the middle row for the state `app`.
    pub open spec fn is_center_of(&self, app: &App) -> bool {
        &&& self.projects.is_menu(
            " Projects "@,
            app.current_screen == CurrentScreen::Projects,
            project_texts(app),
            app.current_selected_project as int,
            app.config.menu_scroll_buffer as int,
        )
        &&& self.notes.is_menu(
            " Notes "@,
            app.current_screen == CurrentScreen::Notes,
            note_texts(app),
            app.current_selected_note as int,
            app.config.menu_scroll_buffer as int,
        )
        &&& self.preview.title@ == " Preview "@
        &&& self.preview.border_style == border_style_of(
            app.current_screen == CurrentScreen::Preview,
        )
    }
}

/// Twice a margin, held at the largest width a terminal can have.
pub open spec fn doubled(margin: u16) -> int {
    if 2 * margin > u16::MAX {
        u16::MAX as int
    } else {
        2 * margin
    }
}

/// `area` without a margin of `horizontal` cells on its left and right and
/// of `vertical` cells above and below it. Where the margins do not fit,
/// nothing is left: the empty area in the top left corner.
pub open spec fn shrunk(area: Area, horizontal: u16, vertical: u16) -> Area {
    if area.width < doubled(horizontal) || area.height < doubled(vertical) {
        Area { x: 0, y: 0, width: 0, height: 0 }
    } else {
        Area {
            x: if area.x + horizontal > u16::MAX {
                u16::MAX
            } else {
                (area.x + horizontal) as u16
            },
            y: if area.y + vertical > u16::MAX {
                u16::MAX
            } else {
                (area.y + vertical) as u16
            },
            width: (area.width - doubled(horizontal)) as u16,
            height: (area.height - doubled(vertical)) as u16,
        }
    }
}

/// `ratatui::layout::Rect::inner`, on the four numbers of a rectangle and
/// the two of a margin. Nothing here proves what it computes: the contract
/// repeats what the toolkit does, which is to take the margin off on each
/// side with saturating arithmetic and to give the empty rectangle at the
/// origin where the doubled margin is wider or higher than the rectangle.
#[verifier::external_body]
fn rect_inner(area: Area, horizontal: u16, vertical: u16) -> (inner: Area)
    ensures
        inner == shrunk(area, horizontal, vertical),
{
    let rect = ratatui::layout::Rect {
        x: area.x,
        y: area.y,
        width: area.width,
        height: area.height,
    };
    let inner = rect.inner(&ratatui::layout::Margin { horizontal, vertical });
    Area { x: inner.x, y: inner.y, width: inner.width, height: inner.height }
}

/// Where the scrollbar of a panel is drawn: inside the panel's border, so
/// one line below its top and one above its bottom, over its whole width.
pub fn scrollbar_area(panel: Area) -> (area: Area)
    ensures
        area == shrunk(panel, 0, 1),
        panel.height < 2 ==> area == (Area { x: 0, y: 0, width: 0, height: 0 }),
        panel.height >= 2 ==> {
            &&& area.x == panel.x
            &&& area.width == panel.width
            &&& area.height == panel.height - 2
            &&& area.y == if panel.y == u16::MAX {
                u16::MAX as int
            } else {
                panel.y + 1
            }
        },
{
    rect_inner(panel, 0, 1)
}

/// How the screen is split from top to bottom: three lines for the search
/// bar, the rest for the middle row.
pub fn screen_rows() -> (rows: Vec<Extent>)
    ensures
        rows@ == seq![Extent::Length(3), Extent::Min(1)],
{
    let mut rows: Vec<Extent> = Vec::new();
    rows.push(Extent::Length(3));
    rows.push(Extent::Min(1));
    assert(rows@ =~= seq![Extent::Length(3), Extent::Min(1)]);
    rows
}

/// How the middle row is split from left to right: a third each for
/// projects, notes and preview.
pub fn center_columns() -> (columns: Vec<Extent>)
    ensures
        columns@ == seq![Extent::Percentage(33), Extent::Percentage(33), Extent::Percentage(33)],
{
    let mut columns: Vec<Extent> = Vec::new();
    columns.push(Extent::Percentage(33));
    columns.push(Extent::Percentage(33));
    columns.push(Extent::Percentage(33));
    assert(columns@ =~= seq![
        Extent::Percentage(33),
        Extent::Percentage(33),
        Extent::Percentage(33),
    ]);
    columns
}

} // verus!
