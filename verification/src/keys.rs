//! Keys, screens, and the table that says what a key means on a screen.

use vstd::prelude::*;

verus! {

/// The screen that has the focus.
#[derive(Clone, Copy, Debug, PartialEq, Eq, Structural)]
pub enum Screen {
    NewTodo,
    Todos,
    Notes,
    EditNotes,
    NewDailyTodo,
    DailyTodos,
    Stats,
}

/// A key press, as far as the screens tell keys apart.
#[derive(Clone, Copy, Debug, PartialEq, Eq, Structural)]
pub enum Key {
    Esc,
    Backspace,
    Enter,
    Char(char),
    Other,
}

/// What a key press asks for.
#[derive(Clone, Copy, Debug, PartialEq, Eq, Structural)]
pub enum Action {
    Nothing,
    Quit,
    /// Give the focus to a screen.
    Show(Screen),
    /// Move the todo selection down or up, with the selected todo or without.
    Down { reorder: bool },
    Up { reorder: bool },
    Toggle,
    Delete,
    /// Start a new day if the date has changed.
    NewDay,
    TypeTodo(char),
    EraseTodo,
    CancelTodo,
    ConfirmTodo,
    /// Move the template selection down or up.
    DailyDown { reorder: bool },
    DailyUp { reorder: bool },
    DailyDelete,
    TypeDaily(char),
    EraseDaily,
    CancelDaily,
    ConfirmDaily,
    TypeNotes(char),
    EraseNotes,
    SaveNotes,
    StatsPrevious,
    StatsNext,
    LeaveStats,
}

/// The ASCII lower case of a character; other characters map to themselves.
pub open spec fn lower(c: char) -> char {
    if 'A' <= c && c <= 'Z' {
        ((c as u8) + 32) as char
    } else {
        c
    }
}

/// Computes the ASCII lower case of a character.
pub fn to_lower(c: char) -> (r: char)
    ensures
        r == lower(c),
{
    if 'A' <= c && c <= 'Z' {
        ((c as u8) + 32) as char
    } else {
        c
    }
}

/// The meaning of a letter on the todo list.
pub open spec fn todos_action(c: char, shift: bool) -> Action {
    let c = lower(c);
    if c == 'q' {
        Action::Quit
    } else if c == 'k' {
        Action::Up { reorder: shift }
    } else if c == 'j' {
        Action::Down { reorder: shift }
    } else if c == 'l' {
        Action::Show(Screen::Notes)
    } else if c == 'x' {
        Action::Toggle
    } else if c == 'd' {
        Action::Delete
    } else if c == 'n' {
        if shift {
            Action::NewDay
        } else {
            Action::Show(Screen::NewTodo)
        }
    } else if c == 't' {
        Action::Show(Screen::DailyTodos)
    } else if c == 's' {
        Action::Show(Screen::Stats)
    } else {
        Action::Nothing
    }
}

/// The meaning of a letter on the template list.
pub open spec fn daily_action(c: char, shift: bool) -> Action {
    let c = lower(c);
    if c == 'j' {
        Action::DailyDown { reorder: shift }
    } else if c == 'k' {
        Action::DailyUp { reorder: shift }
    } else if c == 'n' {
        Action::Show(Screen::NewDailyTodo)
    } else if c == 'd' {
        Action::DailyDelete
    } else {
        Action::Nothing
    }
}

/// The meaning of a letter on the notes.
pub open spec fn notes_action(c: char) -> Action {
    let c = lower(c);
    if c == 'q' {
        Action::Quit
    } else if c == 'e' {
        Action::Show(Screen::EditNotes)
    } else if c == 't' {
        Action::Show(Screen::DailyTodos)
    } else if c == 'h' {
        Action::Show(Screen::Todos)
    } else {
        Action::Nothing
    }
}

/// The meaning of a letter on the statistics, where case matters.
pub open spec fn stats_action(c: char) -> Action {
    if c == 'q' {
        Action::Quit
    } else if c == 'h' {
        Action::StatsPrevious
    } else if c == 'l' {
        Action::StatsNext
    } else if c == 's' {
        Action::LeaveStats
    } else {
        Action::Nothing
    }
}

/// What `key` means on `screen`. `shift` says that shift, and nothing else,
/// was held.
pub open spec fn action_of(screen: Screen, key: Key, shift: bool) -> Action {
    match screen {
        Screen::NewTodo => match key {
            Key::Esc => Action::CancelTodo,
            Key::Backspace => Action::EraseTodo,
            Key::Enter => Action::ConfirmTodo,
            Key::Char(c) => Action::TypeTodo(c),
            Key::Other => Action::Nothing,
        },
        Screen::Todos => match key {
            Key::Char(c) => todos_action(c, shift),
            _ => Action::Nothing,
        },
        Screen::NewDailyTodo => match key {
            Key::Esc => Action::CancelDaily,
            Key::Backspace => Action::EraseDaily,
            Key::Enter => Action::ConfirmDaily,
            Key::Char(c) => Action::TypeDaily(c),
            Key::Other => Action::Nothing,
        },
        Screen::DailyTodos => match key {
            Key::Esc => Action::Show(Screen::Todos),
            Key::Char(c) => daily_action(c, shift),
            _ => Action::Nothing,
        },
        Screen::Notes => match key {
            Key::Char(c) => notes_action(c),
            _ => Action::Nothing,
        },
        Screen::EditNotes => match key {
            Key::Esc => Action::SaveNotes,
            Key::Backspace => Action::EraseNotes,
            Key::Enter => Action::TypeNotes('\n'),
            Key::Char(c) => Action::TypeNotes(c),
            Key::Other => Action::Nothing,
        },
        Screen::Stats => match key {
            Key::Esc => Action::LeaveStats,
            Key::Char(c) => stats_action(c),
            _ => Action::Nothing,
        },
    }
}

/// The screen that has the focus once `action` is done on `screen`. No
/// answer of the store changes it.
pub open spec fn screen_after(screen: Screen, action: Action) -> Screen {
    match action {
        Action::Show(next) => next,
        Action::CancelTodo | Action::ConfirmTodo | Action::LeaveStats => Screen::Todos,
        Action::CancelDaily | Action::ConfirmDaily => Screen::DailyTodos,
        Action::SaveNotes => Screen::Notes,
        _ => screen,
    }
}

/// Looks up what `key` means on `screen`.
pub fn action_for(screen: Screen, key: Key, shift: bool) -> (action: Action)
    ensures
        action == action_of(screen, key, shift),
{
    match screen {
        Screen::NewTodo => match key {
            Key::Esc => Action::CancelTodo,
            Key::Backspace => Action::EraseTodo,
            Key::Enter => Action::ConfirmTodo,
            Key::Char(c) => Action::TypeTodo(c),
            Key::Other => Action::Nothing,
        },
        Screen::Todos => match key {
            Key::Char(c) => {
                let c = to_lower(c);
                if c == 'q' {
                    Action::Quit
                } else if c == 'k' {
                    Action::Up { reorder: shift }
                } else if c == 'j' {
                    Action::Down { reorder: shift }
                } else if c == 'l' {
                    Action::Show(Screen::Notes)
                } else if c == 'x' {
                    Action::Toggle
                } else if c == 'd' {
                    Action::Delete
                } else if c == 'n' {
                    if shift {
                        Action::NewDay
                    } else {
                        Action::Show(Screen::NewTodo)
                    }
                } else if c == 't' {
                    Action::Show(Screen::DailyTodos)
                } else if c == 's' {
                    Action::Show(Screen::Stats)
                } else {
                    Action::Nothing
                }
            },
            _ => Action::Nothing,
        },
        Screen::NewDailyTodo => match key {
            Key::Esc => Action::CancelDaily,
            Key::Backspace => Action::EraseDaily,
            Key::Enter => Action::ConfirmDaily,
            Key::Char(c) => Action::TypeDaily(c),
            Key::Other => Action::Nothing,
        },
        Screen::DailyTodos => match key {
            Key::Esc => Action::Show(Screen::Todos),
            Key::Char(c) => {
                let c = to_lower(c);
                if c == 'j' {
                    Action::DailyDown { reorder: shift }
                } else if c == 'k' {
                    Action::DailyUp { reorder: shift }
                } else if c == 'n' {
                    Action::Show(Screen::NewDailyTodo)
                } else if c == 'd' {
                    Action::DailyDelete
                } else {
                    Action::Nothing
                }
            },
            _ => Action::Nothing,
        },
        Screen::Notes => match key {
            Key::Char(c) => {
                let c = to_lower(c);
                if c == 'q' {
                    Action::Quit
                } else if c == 'e' {
                    Action::Show(Screen::EditNotes)
                } else if c == 't' {
                    Action::Show(Screen::DailyTodos)
                } else if c == 'h' {
                    Action::Show(Screen::Todos)
                } else {
                    Action::Nothing
                }
            },
            _ => Action::Nothing,
        },
        Screen::EditNotes => match key {
            Key::Esc => Action::SaveNotes,
            Key::Backspace => Action::EraseNotes,
            Key::Enter => Action::TypeNotes('\n'),
            Key::Char(c) => Action::TypeNotes(c),
            Key::Other => Action::Nothing,
        },
        Screen::Stats => match key {
            Key::Esc => Action::LeaveStats,
            Key::Char(c) => {
                if c == 'q' {
                    Action::Quit
                } else if c == 'h' {
                    Action::StatsPrevious
                } else if c == 'l' {
                    Action::StatsNext
                } else if c == 's' {
                    Action::LeaveStats
                } else {
                    Action::Nothing
                }
            },
            _ => Action::Nothing,
        },
    }
}

/// The key presses that lead from the todo list to `target`: at most two.
pub open spec fn path_to(target: Screen) -> Seq<Key> {
    match target {
        Screen::Todos => seq![],
        Screen::NewTodo => seq![Key::Char('n')],
        Screen::Notes => seq![Key::Char('l')],
        Screen::EditNotes => seq![Key::Char('l'), Key::Char('e')],
        Screen::DailyTodos => seq![Key::Char('t')],
        Screen::NewDailyTodo => seq![Key::Char('t'), Key::Char('n')],
        Screen::Stats => seq![Key::Char('s')],
    }
}

/// The screen reached from `screen` by pressing `keys` in turn, without shift.
pub open spec fn screen_reached(screen: Screen, keys: Seq<Key>) -> Screen
    decreases keys.len(),
{
    if keys.len() == 0 {
        screen
    } else {
        screen_reached(screen_after(screen, action_of(screen, keys[0], false)), keys.skip(1))
    }
}

/// Every screen can be reached from the todo list.
pub proof fn lemma_every_screen_reachable(target: Screen)
    ensures
        screen_reached(Screen::Todos, path_to(target)) == target,
{
    reveal_with_fuel(screen_reached, 3);
}

/// The key presses that lead from `screen` back to the todo list.
pub open spec fn path_home(screen: Screen) -> Seq<Key> {
    match screen {
        Screen::Todos => seq![],
        Screen::NewTodo => seq![Key::Esc],
        Screen::Notes => seq![Key::Char('h')],
        Screen::EditNotes => seq![Key::Esc, Key::Char('h')],
        Screen::DailyTodos => seq![Key::Esc],
        Screen::NewDailyTodo => seq![Key::Esc, Key::Esc],
        Screen::Stats => seq![Key::Esc],
    }
}

/// No screen is a dead end: the todo list can be reached from each.
pub proof fn lemma_no_dead_end(screen: Screen)
    ensures
        screen_reached(screen, path_home(screen)) == Screen::Todos,
{
    reveal_with_fuel(screen_reached, 3);
}

} // verus!
