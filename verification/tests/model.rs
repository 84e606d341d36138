use day_todos::daily::{DailyTodo, DailyTodoList};
use day_todos::day::{tally, Day, DayShort};
use day_todos::keys::{action_for, to_lower, Action, Key, Screen};
use day_todos::ordering::{exchange, renumber};
use day_todos::stats::StatsList;
use day_todos::store::SqlValue;
use day_todos::todo::Todo;

fn todo(id: i64, position: i64, text: &str, completed: bool) -> Todo {
    Todo { id, position, day_id: 1, text: text.to_string(), completed }
}

#[test]
fn display_line_shows_the_check_box() {
    assert_eq!(todo(1, 0, "water plants", false).get_text(), "[ ] water plants");
    assert_eq!(todo(1, 0, "water plants", true).get_text(), "[x] water plants");
    assert_eq!(todo(1, 0, "", true).get_text(), "[x] ");
    let daily = DailyTodo { id: 3, position: 0, text: "Stretch".to_string() };
    assert_eq!(daily.get_text(), "Stretch");
}

#[test]
fn tally_counts_all_and_done() {
    let todos = vec![todo(1, 0, "a", true), todo(2, 1, "b", false), todo(3, 2, "c", true)];
    assert_eq!(tally(&todos), (3, 2));
    assert_eq!(tally(&Vec::new()), (0, 0));
}

#[test]
fn exchange_swaps_two_elements() {
    let mut v = vec![10, 20, 30, 40];
    exchange(&mut v, 0, 3);
    assert_eq!(v, vec![40, 20, 30, 10]);
    exchange(&mut v, 2, 1);
    assert_eq!(v, vec![40, 30, 20, 10]);
    exchange(&mut v, 1, 1);
    assert_eq!(v, vec![40, 30, 20, 10]);
    exchange(&mut v, 1, 4);
    assert_eq!(v, vec![40, 30, 20, 10]);
    let mut none: Vec<u8> = Vec::new();
    exchange(&mut none, 0, 0);
    assert!(none.is_empty());
}

#[test]
fn renumber_writes_the_index_into_each_position() {
    let mut todos = vec![todo(7, 9, "a", false), todo(3, 4, "b", true), todo(5, 4, "c", false)];
    renumber(&mut todos);
    let seen: Vec<(i64, i64)> = todos.iter().map(|t| (t.id, t.position)).collect();
    assert_eq!(seen, vec![(7, 0), (3, 1), (5, 2)]);
    assert!(todos[1].completed);
}

#[test]
fn todo_rows_are_read_by_shape() {
    let row = vec![
        SqlValue::Integer(4),
        SqlValue::Integer(2),
        SqlValue::Integer(1),
        SqlValue::Text("call".as_bytes().to_vec()),
        SqlValue::Integer(1),
    ];
    let t = Todo::from_row(&row).unwrap();
    assert_eq!((t.id, t.day_id, t.position, t.completed), (4, 2, 1, true));
    assert_eq!(t.text, "call");
    let open = vec![
        SqlValue::Integer(4),
        SqlValue::Integer(2),
        SqlValue::Integer(1),
        SqlValue::Text("call".as_bytes().to_vec()),
        SqlValue::Integer(0),
    ];
    assert!(!Todo::from_row(&open).unwrap().completed);
    let no_position = vec![
        SqlValue::Integer(4),
        SqlValue::Integer(2),
        SqlValue::Null,
        SqlValue::Text("call".as_bytes().to_vec()),
        SqlValue::Integer(0),
    ];
    assert!(Todo::from_row(&no_position).is_none());
    assert!(Todo::from_row(&Vec::new()).is_none());
    let todos = Todo::from_rows(&vec![row, no_position, open]);
    assert_eq!(todos.len(), 2);
    assert!(todos[0].completed);
    assert!(!todos[1].completed);
}

#[test]
fn text_that_is_not_utf8_spoils_the_row() {
    let row = vec![SqlValue::Integer(4), SqlValue::Integer(2), SqlValue::Text(vec![0x66, 0xff])];
    assert!(DailyTodo::from_row(&row).is_none());
    let blob = vec![SqlValue::Integer(4), SqlValue::Integer(2), SqlValue::Blob(vec![0x66])];
    assert!(DailyTodo::from_row(&blob).is_none());
    let umlaut = vec![SqlValue::Integer(4), SqlValue::Integer(2), SqlValue::Text(vec![0xc3, 0xa4])];
    assert_eq!(DailyTodo::from_row(&umlaut).unwrap().text, "\u{e4}");
}

#[test]
fn template_rows_are_read_by_shape() {
    let row = vec![SqlValue::Integer(4), SqlValue::Integer(2), SqlValue::Text("run".as_bytes().to_vec())];
    let t = DailyTodo::from_row(&row).unwrap();
    assert_eq!((t.id, t.position), (4, 2));
    assert_eq!(t.text, "run");
    let bad = vec![SqlValue::Integer(4), SqlValue::Real, SqlValue::Text("run".as_bytes().to_vec())];
    assert!(DailyTodo::from_row(&bad).is_none());
    assert_eq!(DailyTodo::from_rows(&vec![bad, row]).len(), 1);
}

#[test]
fn index_rows_show_done_over_total() {
    let row = vec![
        SqlValue::Integer(9),
        SqlValue::Text("2024-03-01".as_bytes().to_vec()),
        SqlValue::Integer(12),
        SqlValue::Integer(5),
    ];
    let entry = DayShort::from_row(&row).unwrap();
    assert_eq!(entry.id, 9);
    assert_eq!(entry.date, "2024-03-01");
    assert_eq!(entry.string, "5/12");
    assert_eq!(entry.done, 5);
    let negative = vec![
        SqlValue::Integer(9),
        SqlValue::Text("2024-03-01".as_bytes().to_vec()),
        SqlValue::Integer(-1),
        SqlValue::Integer(0),
    ];
    assert!(DayShort::from_row(&negative).is_none());
    assert_eq!(DayShort::from_rows(&vec![negative, row]).len(), 1);
    assert_eq!(DayShort::label("0", "0"), "0/0");
}

#[test]
fn day_rows_take_counts_and_positions_from_the_todos() {
    let row = vec![
        SqlValue::Integer(3),
        SqlValue::Integer(40),
        SqlValue::Integer(40),
        SqlValue::Text("notes".as_bytes().to_vec()),
        SqlValue::Text("2024-03-01".as_bytes().to_vec()),
    ];
    let todos = vec![todo(8, 5, "a", true), todo(9, 11, "b", false)];
    let day = Day::from_row(&row, todos).unwrap();
    assert_eq!(day.id, 3);
    assert_eq!((day.count_todos, day.done_todos), (2, 1));
    assert_eq!(day.notes, "notes");
    assert_eq!(day.date, "2024-03-01");
    assert_eq!(day.todos[0].position, 0);
    assert_eq!(day.todos[1].position, 1);
    assert!(Day::from_row(&vec![SqlValue::Integer(3)], Vec::new()).is_none());
}

#[test]
fn loaded_templates_are_ranked() {
    let list = DailyTodoList::from_templates(vec![
        DailyTodo { id: 5, position: 5, text: "a".to_string() },
        DailyTodo { id: 9, position: 9, text: "b".to_string() },
    ]);
    assert_eq!(list.index, 0);
    assert_eq!(list.input, "");
    assert_eq!(list.list[0].position, 0);
    assert_eq!(list.list[1].position, 1);
}

#[test]
fn stats_cursor_starts_on_the_last_entry() {
    let entry = |id: i64| DayShort {
        id,
        date: "2024-03-01".to_string(),
        string: "0/0".to_string(),
        done: 0,
    };
    let mut stats = StatsList::over(vec![entry(1), entry(2), entry(3)]);
    assert_eq!(stats.index, 2);
    stats.next();
    assert_eq!(stats.index, 2);
    stats.previous();
    assert_eq!(stats.index, 1);
    let mut none = StatsList::over(Vec::new());
    assert_eq!(none.index, 0);
    none.next();
    none.previous();
    assert_eq!(none.index, 0);
    let blank = StatsList::blank();
    assert_eq!(blank.date, "0000-00-00");
    assert_eq!((blank.id, blank.count_todos, blank.done_todos), (0, 0, 0));
}

#[test]
fn lower_case_touches_ascii_capitals_only() {
    assert_eq!(to_lower('A'), 'a');
    assert_eq!(to_lower('Z'), 'z');
    assert_eq!(to_lower('q'), 'q');
    assert_eq!(to_lower('@'), '@');
    assert_eq!(to_lower('['), '[');
    assert_eq!(to_lower('\u{c4}'), '\u{c4}');
}

#[test]
fn keys_mean_what_the_screen_says() {
    let on = |screen: Screen, key: Key, shift: bool| action_for(screen, key, shift);
    assert_eq!(on(Screen::Todos, Key::Char('j'), false), Action::Down { reorder: false });
    assert_eq!(on(Screen::Todos, Key::Char('J'), true), Action::Down { reorder: true });
    assert_eq!(on(Screen::Todos, Key::Char('k'), true), Action::Up { reorder: true });
    assert_eq!(on(Screen::Todos, Key::Char('x'), false), Action::Toggle);
    assert_eq!(on(Screen::Todos, Key::Char('d'), false), Action::Delete);
    assert_eq!(on(Screen::Todos, Key::Char('n'), false), Action::Show(Screen::NewTodo));
    assert_eq!(on(Screen::Todos, Key::Char('N'), true), Action::NewDay);
    assert_eq!(on(Screen::Todos, Key::Char('l'), false), Action::Show(Screen::Notes));
    assert_eq!(on(Screen::Todos, Key::Char('t'), false), Action::Show(Screen::DailyTodos));
    assert_eq!(on(Screen::Todos, Key::Char('s'), false), Action::Show(Screen::Stats));
    assert_eq!(on(Screen::Todos, Key::Char('q'), false), Action::Quit);
    assert_eq!(on(Screen::Todos, Key::Esc, false), Action::Nothing);
    assert_eq!(on(Screen::Todos, Key::Char('z'), false), Action::Nothing);
    assert_eq!(on(Screen::NewTodo, Key::Char('q'), false), Action::TypeTodo('q'));
    assert_eq!(on(Screen::NewTodo, Key::Enter, false), Action::ConfirmTodo);
    assert_eq!(on(Screen::NewTodo, Key::Esc, false), Action::CancelTodo);
    assert_eq!(on(Screen::NewTodo, Key::Backspace, false), Action::EraseTodo);
    assert_eq!(on(Screen::NewTodo, Key::Other, false), Action::Nothing);
    assert_eq!(on(Screen::Notes, Key::Char('e'), false), Action::Show(Screen::EditNotes));
    assert_eq!(on(Screen::Notes, Key::Char('h'), false), Action::Show(Screen::Todos));
    assert_eq!(on(Screen::Notes, Key::Char('T'), false), Action::Show(Screen::DailyTodos));
    assert_eq!(on(Screen::Notes, Key::Char('q'), false), Action::Quit);
    assert_eq!(on(Screen::EditNotes, Key::Enter, false), Action::TypeNotes('\n'));
    assert_eq!(on(Screen::EditNotes, Key::Char('q'), false), Action::TypeNotes('q'));
    assert_eq!(on(Screen::EditNotes, Key::Esc, false), Action::SaveNotes);
    assert_eq!(on(Screen::EditNotes, Key::Backspace, false), Action::EraseNotes);
    assert_eq!(on(Screen::DailyTodos, Key::Char('j'), true), Action::DailyDown { reorder: true });
    assert_eq!(on(Screen::DailyTodos, Key::Char('k'), false), Action::DailyUp { reorder: false });
    assert_eq!(on(Screen::DailyTodos, Key::Char('n'), false), Action::Show(Screen::NewDailyTodo));
    assert_eq!(on(Screen::DailyTodos, Key::Char('d'), false), Action::DailyDelete);
    assert_eq!(on(Screen::DailyTodos, Key::Esc, false), Action::Show(Screen::Todos));
    assert_eq!(on(Screen::DailyTodos, Key::Char('q'), false), Action::Nothing);
    assert_eq!(on(Screen::NewDailyTodo, Key::Char('x'), false), Action::TypeDaily('x'));
    assert_eq!(on(Screen::NewDailyTodo, Key::Enter, false), Action::ConfirmDaily);
    assert_eq!(on(Screen::NewDailyTodo, Key::Esc, false), Action::CancelDaily);
    assert_eq!(on(Screen::NewDailyTodo, Key::Backspace, false), Action::EraseDaily);
    assert_eq!(on(Screen::Stats, Key::Char('h'), false), Action::StatsPrevious);
    assert_eq!(on(Screen::Stats, Key::Char('l'), false), Action::StatsNext);
    assert_eq!(on(Screen::Stats, Key::Char('s'), false), Action::LeaveStats);
    assert_eq!(on(Screen::Stats, Key::Esc, false), Action::LeaveStats);
    assert_eq!(on(Screen::Stats, Key::Char('H'), false), Action::Nothing);
    assert_eq!(on(Screen::Stats, Key::Char('q'), false), Action::Quit);
}
