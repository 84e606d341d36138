//! What each screen shows, as plain values: lines, titles, chart bars and
//! cursor cells. Drawing them is the caller's business.

use vstd::prelude::*;
use unicode_width::UnicodeWidthStr;
use crate::app::App;
use crate::day::Day;
use crate::keys::Screen;
use crate::day::DayView;
use crate::stats::{blank_day, StatsList, StatsView};
use crate::store::StoreError;
use crate::text::{lines_of, split_lines, texts, trim_start, trimmed_start};
use crate::todo::Todo;

verus! {

/// The number of terminal columns that `UnicodeWidthStr::width` gives for a
/// text.
pub uninterp spec fn display_width(s: Seq<char>) -> nat;

/// Calls `unicode_width::UnicodeWidthStr::width`, the displayed width of a
/// string in columns.
#[verifier::external_body]
pub(crate) fn width_of(s: &str) -> (w: usize)
    ensures
        w == display_width(s@),
{
    s.width()
}

/// One line of a list, and whether it is the highlighted one.
pub struct Line {
    pub text: String,
    pub highlighted: bool,
}

/// One part of the picture.
#[derive(Clone, Copy, Debug, PartialEq, Eq, Structural)]
pub enum Panel {
    /// The day's todos beside its notes; `todos` says that the todo list has
    /// the focus.
    Todos { todos: bool },
    /// The entry box for a new todo.
    NewTodo,
    /// The list of templates, with or without the focus.
    DailyTodos { active: bool },
    /// The entry box for a new template.
    NewDailyTodo,
    /// The chart over all days and the day under its cursor.
    Stats,
}

/// The panels that make up the picture of `screen`, in drawing order.
pub open spec fn panels_of(screen: Screen) -> Seq<Panel> {
    match screen {
        Screen::NewTodo => seq![Panel::Todos { todos: false }, Panel::NewTodo],
        Screen::Todos => seq![Panel::Todos { todos: true }],
        Screen::Notes => seq![Panel::Todos { todos: false }],
        Screen::EditNotes => seq![Panel::Todos { todos: false }],
        Screen::NewDailyTodo => seq![
            Panel::Todos { todos: false },
            Panel::DailyTodos { active: false },
            Panel::NewDailyTodo,
        ],
        Screen::DailyTodos => seq![Panel::Todos { todos: false }, Panel::DailyTodos { active: true }],
        Screen::Stats => seq![Panel::Stats],
    }
}

/// Whether the notes have the focus while the day is drawn for `screen`
/// with the todo list out of focus or in it.
pub open spec fn notes_in_focus(screen: Screen, todos: bool) -> bool {
    !todos && screen != Screen::NewTodo && screen != Screen::DailyTodos && screen
        != Screen::NewDailyTodo
}

/// The title of the notes: starred while they are edited.
pub open spec fn notes_title_of(screen: Screen) -> Seq<char> {
    if screen == Screen::EditNotes {
        "Notes*"@
    } else {
        "Notes"@
    }
}

/// The label of a day in the chart: its date between stars under the
/// cursor, between dashes elsewhere.
pub open spec fn bar_label(date: Seq<char>, selected: bool) -> Seq<char> {
    if selected {
        "*"@ + date + "*"@
    } else {
        "-"@ + date + "-"@
    }
}

/// The cell of the cursor behind a text of `width` columns in a box whose
/// corner is at column `x` and row `y`: one column in for the border, one row
/// down. None where that cell has no `u16` column or row.
pub open spec fn cell_behind(x: u16, y: u16, width: nat) -> Option<(u16, u16)> {
    if x + width + 1 <= u16::MAX && y + 1 <= u16::MAX {
        Some(((x + width + 1) as u16, (y + 1) as u16))
    } else {
        None
    }
}

/// The cell of the cursor behind the last of `lines` in a box whose corner
/// is at column `x` and row `y`: one column in for the border, one row down
/// for each line. None where that cell has no `u16` column or row.
pub open spec fn cell_below(x: u16, y: u16, lines: Seq<Seq<char>>) -> Option<(u16, u16)> {
    let width = if lines.len() > 0 {
        display_width(lines.last())
    } else {
        0
    };
    if x + 1 + width <= u16::MAX && y + lines.len() <= u16::MAX {
        Some(((x + 1 + width) as u16, (y + lines.len()) as u16))
    } else {
        None
    }
}

/// Whether `lines` are the lines of the notes `notes` as the panel shows
/// them: the pieces between the line breaks, each without its leading white
/// space.
pub open spec fn shows_notes(lines: Seq<String>, notes: Seq<char>) -> bool {
    &&& lines.len() == lines_of(notes).len()
    &&& forall|i: int|
        0 <= i < lines.len() ==> (#[trigger] lines[i])@ == trimmed_start(lines_of(notes)[i])
}

/// The day as the list and notes panel shows it.
pub struct TodosScreen {
    pub title: String,
    pub items: Vec<Line>,
    pub todos_active: bool,
    pub notes_title: String,
    pub notes: Vec<String>,
    pub notes_active: bool,
}

/// An entry box: what was typed, and the cell of the cursor behind it.
pub struct EntryScreen {
    pub text: String,
    pub cursor: Option<(u16, u16)>,
}

/// The statistics: one bar for each day, and the day under the cursor.
pub struct StatsScreen {
    pub bars: Vec<(String, u64)>,
    pub title: String,
    pub items: Vec<Line>,
    pub notes: Vec<String>,
}

/// One demand on the size of a strip of a split area.
#[derive(Clone, Copy, Debug, PartialEq, Eq, Structural)]
pub enum Span {
    /// A share of the area, in percent.
    Percentage(u16),
    /// A fixed number of cells.
    Length(u16),
    /// At least this number of cells.
    Min(u16),
}

/// How to cut a box out of an area: three strips from top to bottom, then
/// three from left to right within the middle one. The box is the middle of
/// the middle.
pub struct Cut {
    pub rows: Vec<Span>,
    pub columns: Vec<Span>,
}

/// A share of `percent` in the middle, and what is left in equal shares on
/// both sides.
pub open spec fn centered(percent: u16) -> Seq<Span> {
    seq![
        Span::Percentage(((100 - percent) / 2) as u16),
        Span::Percentage(percent),
        Span::Percentage(((100 - percent) / 2) as u16),
    ]
}

/// At least three rows in the middle of `height` rows, and one row less
/// than half of them above and below.
pub open spec fn middle_rows(height: u16) -> Seq<Span> {
    seq![
        Span::Length((height / 2 - 1) as u16),
        Span::Min(3),
        Span::Length((height / 2 - 1) as u16),
    ]
}

/// Builds the three strips of `centered`.
fn centered_spans(percent: u16) -> (spans: Vec<Span>)
    requires
        percent <= 100,
    ensures
        spans@ == centered(percent),
{
    let side = (100 - percent) / 2;
    let spans = vec![Span::Percentage(side), Span::Percentage(percent), Span::Percentage(side)];
    spans
}

/// The cut for an entry box in an area of `height` rows: at least three
/// rows in the middle, `percent_x` percent of the width in the middle.
pub fn centered_input(percent_x: u16, height: u16) -> (cut: Cut)
    requires
        percent_x <= 100,
        height >= 2,
    ensures
        cut.rows@ == middle_rows(height),
        cut.columns@ == centered(percent_x),
{
    let edge = height / 2 - 1;
    let rows = vec![Span::Length(edge), Span::Min(3), Span::Length(edge)];
    Cut { rows, columns: centered_spans(percent_x) }
}

/// The cut for a box of `percent_x` percent of the width and `percent_y`
/// percent of the height in the middle of an area.
pub fn centered_rect(percent_x: u16, percent_y: u16) -> (cut: Cut)
    requires
        percent_x <= 100,
        percent_y <= 100,
    ensures
        cut.rows@ == centered(percent_y),
        cut.columns@ == centered(percent_x),
{
    Cut { rows: centered_spans(percent_y), columns: centered_spans(percent_x) }
}

impl App {
    /// The panels that make up the picture of the session, in drawing order.
    pub fn ui(&self) -> (r: Vec<Panel>)
        ensures
            r@ == panels_of(self@.screen),
    {
        panels(self.screen)
    }
}

/// The panels to draw for `screen`, in drawing order.
pub fn panels(screen: Screen) -> (r: Vec<Panel>)
    ensures
        r@ == panels_of(screen),
{
    let r = match screen {
        Screen::NewTodo => vec![Panel::Todos { todos: false }, Panel::NewTodo],
        Screen::Todos => vec![Panel::Todos { todos: true }],
        Screen::Notes => vec![Panel::Todos { todos: false }],
        Screen::EditNotes => vec![Panel::Todos { todos: false }],
        Screen::NewDailyTodo => vec![
            Panel::Todos { todos: false },
            Panel::DailyTodos { active: false },
            Panel::NewDailyTodo,
        ],
        Screen::DailyTodos => vec![
            Panel::Todos { todos: false },
            Panel::DailyTodos { active: true },
        ],
        Screen::Stats => vec![Panel::Stats],
    };
    r
}

/// The display lines of `todos`, with the one at `selected` highlighted
/// where `active` is set.
pub fn todo_lines(todos: &Vec<Todo>, selected: usize, active: bool) -> (lines: Vec<Line>)
    ensures
        lines@.len() == todos@.len(),
        forall|i: int|
            0 <= i < todos@.len() ==> (#[trigger] lines@[i]).text@ == todos@[i].line()
                && lines@[i].highlighted == (i == selected && active),
{
    let mut lines: Vec<Line> = Vec::new();
    let mut i: usize = 0;
    while i < todos.len()
        invariant
            i <= todos@.len(),
            lines@.len() == i,
            forall|k: int|
                0 <= k < i ==> (#[trigger] lines@[k]).text@ == todos@[k].line()
                    && lines@[k].highlighted == (k == selected && active),
        decreases todos.len() - i,
    {
        lines.push(Line { text: todos[i].get_text(), highlighted: i == selected && active });
        i += 1;
    }
    lines
}

/// The lines of the active day's todos; the selected one is highlighted
/// where the list has the focus.
pub fn get_todos_list(app: &App, active: bool) -> (lines: Vec<Line>)
    ensures
        lines@.len() == app@.day.todos.len(),
        forall|i: int|
            0 <= i < lines@.len() ==> (#[trigger] lines@[i]).text@ == app@.day.todos[i].line()
                && lines@[i].highlighted == (i == app@.index && active),
{
    todo_lines(&app.day.todos, app.index, active)
}

/// The lines of the templates; the selected one is highlighted where the
/// list has the focus.
pub fn get_daily_todos_list(app: &App, active: bool) -> (lines: Vec<Line>)
    ensures
        lines@.len() == app@.daily_todos.list.len(),
        forall|i: int|
            0 <= i < lines@.len() ==> (#[trigger] lines@[i]).text@
                == app@.daily_todos.list[i].text@ && lines@[i].highlighted == (i
                == app@.daily_todos.index && active),
{
    let list = &app.daily_todos.list;
    let mut lines: Vec<Line> = Vec::new();
    let mut i: usize = 0;
    while i < list.len()
        invariant
            i <= list@.len(),
            lines@.len() == i,
            list@ == app@.daily_todos.list,
            forall|k: int|
                0 <= k < i ==> (#[trigger] lines@[k]).text@ == list@[k].text@
                    && lines@[k].highlighted == (k == app@.daily_todos.index && active),
        decreases list.len() - i,
    {
        lines.push(
            Line { text: list[i].get_text(), highlighted: i == app.daily_todos.index && active },
        );
        i += 1;
    }
    lines
}

/// The lines of the notes as the panel shows them: one for each piece
/// between line breaks, without its leading white space.
pub fn notes_lines(notes: &str) -> (lines: Vec<String>)
    ensures
        shows_notes(lines@, notes@),
{
    let pieces = split_lines(notes);
    let mut lines: Vec<String> = Vec::new();
    let mut i: usize = 0;
    while i < pieces.len()
        invariant
            i <= pieces@.len(),
            lines@.len() == i,
            texts(pieces@) == lines_of(notes@),
            forall|k: int| 0 <= k < i ==> (#[trigger] lines@[k])@ == trimmed_start(lines_of(notes@)[k]),
        decreases pieces.len() - i,
    {
        lines.push(trim_start(pieces[i].as_str()));
        i += 1;
    }
    lines
}

/// The cursor cell behind the last of `lines` in a box with its corner at
/// `x`, `y`.
pub fn notes_cursor(lines: &Vec<String>, x: u16, y: u16) -> (cell: Option<(u16, u16)>)
    ensures
        cell == cell_below(x, y, texts(lines@)),
{
    let width = if lines.len() > 0 {
        width_of(lines[lines.len() - 1].as_str())
    } else {
        0
    };
    if x == u16::MAX || width as u64 > (u16::MAX - 1 - x) as u64 {
        return None;
    }
    if lines.len() as u64 > (u16::MAX - y) as u64 {
        return None;
    }
    Some((x + 1 + width as u16, y + lines.len() as u16))
}

/// The title of a list of todos: `TODOs | ` and the day's date.
pub fn todos_title(date: &str) -> (title: String)
    ensures
        title@ == "TODOs | "@ + date@,
{
    let mut title = "TODOs | ".to_owned();
    title.append(date);
    title
}

/// The active day as the list and notes panel shows it. `todos` says that
/// the todo list has the focus.
pub fn todos_screen(app: &App, todos: bool) -> (view: TodosScreen)
    ensures
        view.title@ == "TODOs | "@ + app@.day.date,
        view.todos_active == todos,
        view.items@.len() == app@.day.todos.len(),
        forall|i: int|
            0 <= i < view.items@.len() ==> (#[trigger] view.items@[i]).text@
                == app@.day.todos[i].line() && view.items@[i].highlighted == (i == app@.index
                && todos),
        view.notes_title@ == notes_title_of(app@.screen),
        shows_notes(view.notes@, app@.day.notes),
        view.notes_active == notes_in_focus(app@.screen, todos),
{
    let notes_active = !todos && !matches!(
        app.screen,
        Screen::NewTodo | Screen::DailyTodos | Screen::NewDailyTodo
    );
    let notes_title = if matches!(app.screen, Screen::EditNotes) {
        "Notes*".to_owned()
    } else {
        "Notes".to_owned()
    };
    TodosScreen {
        title: todos_title(app.day.date.as_str()),
        items: get_todos_list(app, todos),
        todos_active: todos,
        notes_title,
        notes: notes_lines(app.day.notes.as_str()),
        notes_active,
    }
}

/// The templates as their panel shows them.
pub fn daily_todos_screen(app: &App, active: bool) -> (lines: Vec<Line>)
    ensures
        lines@.len() == app@.daily_todos.list.len(),
        forall|i: int|
            0 <= i < lines@.len() ==> (#[trigger] lines@[i]).text@
                == app@.daily_todos.list[i].text@ && lines@[i].highlighted == (i
                == app@.daily_todos.index && active),
{
    get_daily_todos_list(app, active)
}

/// The cursor cell behind a text of `width` columns in a box with its
/// corner at `x`, `y`.
pub fn cursor_behind(x: u16, y: u16, width: usize) -> (cell: Option<(u16, u16)>)
    ensures
        cell == cell_behind(x, y, width as nat),
{
    if y == u16::MAX || width as u64 >= u16::MAX as u64 {
        return None;
    }
    let w = width as u16;
    if x > u16::MAX - 1 - w {
        return None;
    }
    Some((x + w + 1, y + 1))
}

/// An entry box with its corner at `x`, `y` that holds `text`.
pub fn entry_screen(text: &str, x: u16, y: u16) -> (view: EntryScreen)
    ensures
        view.text@ == text@,
        view.cursor == cell_behind(x, y, display_width(text@)),
{
    EntryScreen { text: text.to_owned(), cursor: cursor_behind(x, y, width_of(text)) }
}

/// The entry box for a new todo, with its corner at `x`, `y`.
pub fn new_todo_screen(app: &App, x: u16, y: u16) -> (view: EntryScreen)
    ensures
        view.text@ == app@.input,
        view.cursor == cell_behind(x, y, display_width(app@.input)),
{
    entry_screen(app.input.as_str(), x, y)
}

/// The entry box for a new template, with its corner at `x`, `y`.
pub fn new_daily_todo_screen(app: &App, x: u16, y: u16) -> (view: EntryScreen)
    ensures
        view.text@ == app@.daily_todos.input,
        view.cursor == cell_behind(x, y, display_width(app@.daily_todos.input)),
{
    entry_screen(app.daily_todos.input.as_str(), x, y)
}

/// The bars of the chart: one for each day of the index, labelled with its
/// date and as high as its number of completed todos.
pub fn chart_bars(stats: &StatsList) -> (bars: Vec<(String, u64)>)
    ensures
        bars@.len() == stats@.list.len(),
        forall|i: int|
            0 <= i < bars@.len() ==> (#[trigger] bars@[i]).0@ == bar_label(
                stats@.list[i].date@,
                i == stats@.index,
            ) && bars@[i].1 == stats@.list[i].done,
{
    let mut bars: Vec<(String, u64)> = Vec::new();
    let mut i: usize = 0;
    while i < stats.list.len()
        invariant
            i <= stats@.list.len(),
            bars@.len() == i,
            forall|k: int|
                0 <= k < i ==> (#[trigger] bars@[k]).0@ == bar_label(
                    stats@.list[k].date@,
                    k == stats@.index,
                ) && bars@[k].1 == stats@.list[k].done,
        decreases stats.list.len() - i,
    {
        let mark = if i == stats.index {
            "*"
        } else {
            "-"
        };
        let mut label = mark.to_owned();
        label.append(stats.list[i].date.as_str());
        label.append(mark);
        bars.push((label, stats.list[i].done as u64));
        i += 1;
    }
    bars
}

/// Whether the bars of `view` are those of the index `stats`: one for each
/// day, labelled with its date and as high as its number of completed todos.
pub open spec fn shows_bars(view: StatsScreen, stats: StatsView) -> bool {
    &&& view.bars@.len() == stats.list.len()
    &&& forall|i: int|
        0 <= i < view.bars@.len() ==> (#[trigger] view.bars@[i]).0@ == bar_label(
            stats.list[i].date@,
            i == stats.index,
        ) && view.bars@[i].1 == stats.list[i].done
}

/// Whether the lower part of `view` shows `day`: its date in the title, its
/// todos line by line with none highlighted, and its notes.
pub open spec fn shows_day(view: StatsScreen, day: DayView) -> bool {
    &&& view.title@ == "TODOs | "@ + day.date
    &&& shows_notes(view.notes@, day.notes)
    &&& view.items@.len() == day.todos.len()
    &&& forall|i: int|
        0 <= i < view.items@.len() ==> (#[trigger] view.items@[i]).text@ == day.todos[i].line()
            && !view.items@[i].highlighted
}

/// Whether the lower part of `view` shows a well-formed day that the
/// cursor of `stats` can show: the blank day, or the day that the entry under
/// the cursor names.
pub open spec fn shows_cursor(view: StatsScreen, stats: StatsView) -> bool {
    exists|day: DayView| #[trigger] shows_day(view, day) && day.wf() && stats.shows(day)
}

/// The statistics around `day`, the day under the cursor.
pub fn stats_of(stats: &StatsList, day: &Day) -> (view: StatsScreen)
    ensures
        shows_bars(view, stats@),
        shows_day(view, day@),
{
    StatsScreen {
        bars: chart_bars(stats),
        title: todos_title(day.date.as_str()),
        items: todo_lines(&day.todos, 0, false),
        notes: notes_lines(day.notes.as_str()),
    }
}

/// The statistics as their screen shows them: the chart of the index, and
/// below it a well-formed day that the cursor can show, which is the blank
/// day or the day that the entry under the cursor names. With the cursor off
/// the index the store is not asked: the screen shows the blank day.
pub fn stats_screen(app: &App) -> (res: Result<StatsScreen, StoreError>)
    ensures
        res matches Ok(view) ==> shows_bars(view, app@.stats_list) && shows_cursor(
            view,
            app@.stats_list,
        ),
        app@.stats_list.index >= app@.stats_list.list.len() ==> (res matches Ok(view)
            && shows_day(view, blank_day())),
{
    match app.stats_list.get_current(&app.db) {
        Ok(day) => {
            let view = stats_of(&app.stats_list, &day);
            assert(shows_day(view, day@) && day@.wf() && app@.stats_list.shows(day@));
            assert(shows_cursor(view, app@.stats_list));
            Ok(view)
        },
        Err(e) => Err(e),
    }
}

} // verus!
