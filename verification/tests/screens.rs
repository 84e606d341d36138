use day_todos::app::App;
use day_todos::day::{Day, DayShort};
use day_todos::keys::{Key, Screen};
use day_todos::stats::StatsList;
use day_todos::store::init_connection;
use day_todos::todo::Todo;
use day_todos::ui::{
    centered_input, centered_rect, chart_bars, cursor_behind, daily_todos_screen, entry_screen,
    get_daily_todos_list, get_todos_list, new_daily_todo_screen, new_todo_screen, notes_cursor,
    notes_lines, panels, stats_of, stats_screen, todo_lines, todos_screen, todos_title, Line,
    Panel, Span,
};

const DATE: &str = "2024-03-01";

fn session(texts: &[&str]) -> App {
    let db = init_connection(":memory:").unwrap();
    let mut app = App::new(db, DATE).unwrap();
    for text in texts {
        app.append(text).unwrap();
    }
    app.set_screen(Screen::Todos);
    app
}

fn shown(lines: &[Line]) -> Vec<(String, bool)> {
    lines.iter().map(|l| (l.text.clone(), l.highlighted)).collect()
}

fn pairs(v: &[(&str, bool)]) -> Vec<(String, bool)> {
    v.iter().map(|(t, h)| (t.to_string(), *h)).collect()
}

#[test]
fn each_screen_has_its_panels() {
    assert_eq!(panels(Screen::Todos), vec![Panel::Todos { todos: true }]);
    assert_eq!(panels(Screen::Notes), vec![Panel::Todos { todos: false }]);
    assert_eq!(panels(Screen::EditNotes), vec![Panel::Todos { todos: false }]);
    assert_eq!(panels(Screen::NewTodo), vec![Panel::Todos { todos: false }, Panel::NewTodo]);
    assert_eq!(
        panels(Screen::DailyTodos),
        vec![Panel::Todos { todos: false }, Panel::DailyTodos { active: true }]
    );
    assert_eq!(
        panels(Screen::NewDailyTodo),
        vec![
            Panel::Todos { todos: false },
            Panel::DailyTodos { active: false },
            Panel::NewDailyTodo
        ]
    );
    assert_eq!(panels(Screen::Stats), vec![Panel::Stats]);
    let mut app = session(&[]);
    app.set_screen(Screen::Stats);
    assert_eq!(app.ui(), vec![Panel::Stats]);
}

#[test]
fn todo_lines_highlight_the_selection_in_focus() {
    let mut app = session(&["A", "B"]);
    app.index = 1;
    app.toggle().unwrap();
    assert_eq!(shown(&get_todos_list(&app, true)), pairs(&[("[ ] A", false), ("[x] B", true)]));
    assert_eq!(shown(&get_todos_list(&app, false)), pairs(&[("[ ] A", false), ("[x] B", false)]));
    assert_eq!(
        shown(&todo_lines(&app.day.todos, 0, true)),
        pairs(&[("[ ] A", true), ("[x] B", false)])
    );
    assert!(todo_lines(&Vec::<Todo>::new(), 0, true).is_empty());
}

#[test]
fn template_lines_highlight_the_selection_in_focus() {
    let mut app = session(&[]);
    app.daily_todos.append(&app.db, "Stretch").unwrap();
    app.daily_todos.append(&app.db, "Read").unwrap();
    app.daily_todos.index = 1;
    assert_eq!(
        shown(&get_daily_todos_list(&app, true)),
        pairs(&[("Stretch", false), ("Read", true)])
    );
    assert_eq!(
        shown(&daily_todos_screen(&app, false)),
        pairs(&[("Stretch", false), ("Read", false)])
    );
}

#[test]
fn day_panel_shows_title_lines_and_notes() {
    let mut app = session(&["A"]);
    app.day.notes = "one\n  two\n".to_string();
    let view = todos_screen(&app, true);
    assert_eq!(view.title, "TODOs | 2024-03-01");
    assert!(view.todos_active);
    assert!(!view.notes_active);
    assert_eq!(view.notes_title, "Notes");
    assert_eq!(view.notes, vec!["one", "two", ""]);
    assert_eq!(shown(&view.items), pairs(&[("[ ] A", true)]));

    app.set_screen(Screen::EditNotes);
    let view = todos_screen(&app, false);
    assert_eq!(view.notes_title, "Notes*");
    assert!(view.notes_active);
    assert!(!view.todos_active);
    assert_eq!(shown(&view.items), pairs(&[("[ ] A", false)]));

    app.set_screen(Screen::Notes);
    assert!(todos_screen(&app, false).notes_active);
    for screen in [Screen::NewTodo, Screen::DailyTodos, Screen::NewDailyTodo] {
        app.set_screen(screen);
        assert!(!todos_screen(&app, false).notes_active);
    }
    assert_eq!(todos_title(""), "TODOs | ");
}

#[test]
fn notes_are_shown_line_by_line() {
    assert_eq!(notes_lines(""), vec![""]);
    assert_eq!(notes_lines("a"), vec!["a"]);
    assert_eq!(notes_lines("\n"), vec!["", ""]);
    assert_eq!(notes_lines(" a \n\t b\n\nc "), vec!["a ", "b", "", "c "]);
}

#[test]
fn notes_cursor_sits_behind_the_last_line() {
    let lines = vec!["one".to_string(), "fo\u{ff21}r".to_string()];
    assert_eq!(notes_cursor(&lines, 10, 20), Some((16, 22)));
    assert_eq!(notes_cursor(&vec![String::new()], 10, 20), Some((11, 21)));
    assert_eq!(notes_cursor(&Vec::new(), 10, 20), Some((11, 20)));
    assert_eq!(notes_cursor(&lines, u16::MAX - 7, 0), Some((u16::MAX - 1, 2)));
    assert_eq!(notes_cursor(&lines, u16::MAX - 6, 0), Some((u16::MAX, 2)));
    assert_eq!(notes_cursor(&lines, u16::MAX - 5, 0), None);
    assert_eq!(notes_cursor(&lines, 0, u16::MAX - 2), Some((6, u16::MAX)));
    assert_eq!(notes_cursor(&lines, 0, u16::MAX - 1), None);
    assert_eq!(notes_cursor(&lines, u16::MAX, 0), None);
}

#[test]
fn entry_cursor_sits_behind_the_text() {
    assert_eq!(cursor_behind(3, 4, 0), Some((4, 5)));
    assert_eq!(cursor_behind(3, 4, 10), Some((14, 5)));
    assert_eq!(cursor_behind(0, 0, 65534), Some((65535, 1)));
    assert_eq!(cursor_behind(1, 0, 65534), None);
    assert_eq!(cursor_behind(0, 0, 65535), None);
    assert_eq!(cursor_behind(0, u16::MAX, 0), None);
    assert_eq!(cursor_behind(u16::MAX, 0, 0), None);
    let view = entry_screen("a\u{ff21}b", 2, 7);
    assert_eq!(view.text, "a\u{ff21}b");
    assert_eq!(view.cursor, Some((7, 8)));
    let mut app = session(&[]);
    app.input = "milk".to_string();
    app.daily_todos.input = "tea\u{301}".to_string();
    assert_eq!(new_todo_screen(&app, 0, 0).cursor, Some((5, 1)));
    assert_eq!(new_todo_screen(&app, 0, 0).text, "milk");
    assert_eq!(new_daily_todo_screen(&app, 0, 0).cursor, Some((4, 1)));
    assert_eq!(new_daily_todo_screen(&app, 0, 0).text, "tea\u{301}");
}

#[test]
fn chart_marks_the_day_under_the_cursor() {
    let entry = |id: i64, date: &str, done: usize| DayShort {
        id,
        date: date.to_string(),
        string: format!("{}/9", done),
        done,
    };
    let mut stats = StatsList::over(vec![entry(1, "2024-02-28", 3), entry(2, "2024-02-29", 0)]);
    assert_eq!(
        chart_bars(&stats),
        vec![("-2024-02-28-".to_string(), 3), ("*2024-02-29*".to_string(), 0)]
    );
    stats.previous();
    assert_eq!(
        chart_bars(&stats),
        vec![("*2024-02-28*".to_string(), 3), ("-2024-02-29-".to_string(), 0)]
    );
    assert!(chart_bars(&StatsList::over(Vec::new())).is_empty());
}

#[test]
fn stats_show_the_day_under_the_cursor() {
    let mut app = session(&["A", "B"]);
    app.toggle().unwrap();
    app.handle_key(Key::Char('l'), false, DATE);
    app.handle_key(Key::Char('e'), false, DATE);
    app.handle_key(Key::Char('n'), false, DATE);
    app.handle_key(Key::Esc, false, DATE);
    let view = stats_screen(&app).unwrap();
    assert_eq!(view.bars, vec![("*2024-03-01*".to_string(), 1)]);
    assert_eq!(view.title, "TODOs | 2024-03-01");
    assert_eq!(shown(&view.items), pairs(&[("[x] A", false), ("[ ] B", false)]));
    assert_eq!(view.notes, vec!["n"]);
    let blank = stats_of(&StatsList::over(Vec::new()), &StatsList::blank());
    assert_eq!(blank.title, "TODOs | 0000-00-00");
    assert!(blank.bars.is_empty());
    assert!(blank.items.is_empty());
    assert_eq!(blank.notes, vec![""]);
    let day = Day::get(&app.db, app.day.id).unwrap();
    assert_eq!(stats_of(&app.stats_list, &day).notes, vec!["n"]);
}

#[test]
fn boxes_are_cut_out_of_the_middle() {
    let cut = centered_rect(30, 50);
    assert_eq!(cut.rows, vec![Span::Percentage(25), Span::Percentage(50), Span::Percentage(25)]);
    assert_eq!(
        cut.columns,
        vec![Span::Percentage(35), Span::Percentage(30), Span::Percentage(35)]
    );
    let cut = centered_input(60, 24);
    assert_eq!(cut.rows, vec![Span::Length(11), Span::Min(3), Span::Length(11)]);
    assert_eq!(
        cut.columns,
        vec![Span::Percentage(20), Span::Percentage(60), Span::Percentage(20)]
    );
    let cut = centered_input(100, 2);
    assert_eq!(cut.rows, vec![Span::Length(0), Span::Min(3), Span::Length(0)]);
    assert_eq!(
        cut.columns,
        vec![Span::Percentage(0), Span::Percentage(100), Span::Percentage(0)]
    );
    let cut = centered_rect(0, 99);
    assert_eq!(cut.rows, vec![Span::Percentage(0), Span::Percentage(99), Span::Percentage(0)]);
    assert_eq!(cut.columns[0], Span::Percentage(50));
}
