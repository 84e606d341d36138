//! The session: the active day, the selection, the entry buffer and the
//! screen, and what each action does to them.

use vstd::prelude::*;
use crate::daily::{clamped, DailyListView, DailyTodoList};
use crate::day::{all_summed, Day, DayShort, DayView};
use crate::keys::{action_for, action_of, screen_after, Action, Key, Screen};
use crate::ordering::swapped;
use crate::stats::{StatsList, StatsView};
use crate::store::StoreError;
use crate::text::{pop_char, push_char, trim, trimmed};
use crate::todo::{all_of_day, renumbered, Todo};

verus! {

/// The whole state of a session.
pub struct App {
    pub index: usize,
    pub input: String,
    pub screen: Screen,
    pub db: rusqlite::Connection,
    pub day: Day,
    pub daily_todos: DailyTodoList,
    pub stats_list: StatsList,
}

/// What a session is, to the contracts: everything but the database handle.
pub ghost struct AppView {
    pub index: usize,
    pub input: Seq<char>,
    pub screen: Screen,
    pub day: DayView,
    pub daily_todos: DailyListView,
    pub stats_list: StatsView,
}

impl View for App {
    type V = AppView;

    open spec fn view(&self) -> AppView {
        AppView {
            index: self.index,
            input: self.input@,
            screen: self.screen,
            day: self.day@,
            daily_todos: self.daily_todos@,
            stats_list: self.stats_list@,
        }
    }
}

/// A text without its last character; the empty text stays empty.
pub open spec fn erased(s: Seq<char>) -> Seq<char> {
    if s.len() > 0 {
        s.drop_last()
    } else {
        s
    }
}

/// The screen a session starts on: text entry for a day without todos, the
/// todo list otherwise.
pub open spec fn first_screen(day: DayView) -> Screen {
    if day.todos.len() == 0 {
        Screen::NewTodo
    } else {
        Screen::Todos
    }
}

/// The id of the day to resume: that of the last entry of the index.
pub open spec fn day_to_resume(days: Seq<DayShort>) -> Option<i64> {
    if days.len() == 0 {
        None
    } else {
        Some(days.last().id)
    }
}

impl AppView {
    /// The session's invariant: a well-formed day, well-formed templates and
    /// a selection that points at a todo or is zero.
    pub open spec fn wf(self) -> bool {
        &&& self.day.wf()
        &&& self.daily_todos.wf()
        &&& (self.index == 0 || self.index < self.day.todos.len())
    }

    /// Whether the index of days of `after` is still one whose entries show
    /// done over total, if that of this session is.
    pub open spec fn index_stays_summed(self, after: AppView) -> bool {
        all_summed(self.stats_list.list) ==> all_summed(after.stats_list.list)
    }

    /// This session with the index of days as `after` has it, cursor kept.
    pub open spec fn with_index_of(self, after: AppView) -> AppView {
        AppView {
            stats_list: StatsView { index: self.stats_list.index, list: after.stats_list.list },
            ..self
        }
    }

    /// This session after the selection went to `target`, one step up or
    /// down: unchanged where `target` is no index of the todos; else with the
    /// selection at `target` and, where `reorder` is set, the two todos
    /// exchanged and renumbered.
    pub open spec fn moved(self, target: int, reorder: bool) -> AppView {
        if !(0 <= target < self.day.todos.len() && self.index < self.day.todos.len()) {
            self
        } else if reorder {
            AppView {
                index: target as usize,
                day: self.day.reordered(
                    renumbered(swapped(self.day.todos, self.index as int, target)),
                ),
                ..self
            }
        } else {
            AppView { index: target as usize, ..self }
        }
    }

    /// This session with the selected todo toggled and the counts that
    /// follow. Unchanged where nothing is selected.
    pub open spec fn with_toggled(self) -> AppView {
        if self.index >= self.day.todos.len() {
            self
        } else {
            AppView {
                day: self.day.with_todos(
                    self.day.todos.update(
                        self.index as int,
                        self.day.todos[self.index as int].toggled(),
                    ),
                ),
                ..self
            }
        }
    }

    /// This session without the selected todo: the rest renumbered, the
    /// counts that follow, and the selection clamped. Unchanged where
    /// nothing is selected.
    pub open spec fn without_selected(self) -> AppView {
        if self.index >= self.day.todos.len() {
            self
        } else {
            AppView {
                index: clamped(self.index, (self.day.todos.len() - 1) as nat),
                day: self.day.with_todos(renumbered(self.day.todos.remove(self.index as int))),
                ..self
            }
        }
    }

    /// Whether `after` is this session with one more todo at the end of the
    /// day: open, holding `text`, at the position of the old length. Its id is
    /// the store's.
    pub open spec fn appended(self, text: Seq<char>, after: AppView) -> bool {
        let added = after.day.todos.last();
        &&& after.day.todos.len() == self.day.todos.len() + 1
        &&& after.day.todos.len() <= i64::MAX
        &&& after.day.todos.drop_last() == self.day.todos
        &&& added.text@ == text
        &&& added.day_id == self.day.id
        &&& !added.completed
        &&& added.position == self.day.todos.len()
        &&& after == (AppView { day: self.day.with_todos(after.day.todos), ..self }).with_index_of(
            after,
        )
        &&& self.index_stays_summed(after)
    }

    /// Whether `day` is a fresh day for `date` that holds one open todo for
    /// each template, in template order.
    pub open spec fn seeded(self, date: Seq<char>, day: DayView) -> bool {
        &&& day.wf()
        &&& day.date == date
        &&& day.notes.len() == 0
        &&& day.todos.len() == self.daily_todos.list.len()
        &&& forall|i: int|
            0 <= i < day.todos.len() ==> {
                &&& (#[trigger] day.todos[i]).text@ == self.daily_todos.list[i].text@
                &&& !day.todos[i].completed
                &&& day.todos[i].day_id == day.id
            }
    }

    /// Whether `after` is this session rolled over to `today`: unchanged
    /// where the active day already has that date; else on a fresh day seeded
    /// from the templates, with the first todo selected and the index of days
    /// as the store then has it.
    pub open spec fn rolled_over(self, today: Seq<char>, after: AppView) -> bool {
        if self.day.date == today {
            after == self
        } else {
            &&& self.seeded(today, after.day)
            &&& after == (AppView { index: 0, day: after.day, ..self }).with_index_of(after)
            &&& self.index_stays_summed(after)
        }
    }

    /// Whether `after` is this session once the entry for a new todo was
    /// confirmed: back on the todo list with an empty buffer, and with one
    /// more todo unless the entry was blank or the store refused.
    pub open spec fn confirmed(self, after: AppView) -> bool {
        let back = AppView { screen: Screen::Todos, input: Seq::empty(), ..self };
        let text = trimmed(self.input);
        ||| after == back
        ||| text.len() > 0 && back.appended(text, after)
    }

    /// Whether `after` is this session once the entry for a new template
    /// was confirmed: back on the template list with an empty buffer, and
    /// with one more template unless the entry was blank or the store refused.
    pub open spec fn daily_confirmed(self, after: AppView) -> bool {
        let text = trimmed(self.daily_todos.input);
        let cleared = DailyListView { input: Seq::empty(), ..self.daily_todos };
        &&& after == (AppView {
            screen: Screen::DailyTodos,
            daily_todos: after.daily_todos,
            ..self
        })
        &&& after.daily_todos.input.len() == 0
        &&& {
            ||| after.daily_todos == cleared
            ||| text.len() > 0 && cleared.appended(text, after.daily_todos)
        }
    }

    /// Whether `after` is what `action` can make of this session on the date
    /// `today`. Where the store has a say, the session either stays as it was
    /// or changes as a whole.
    pub open spec fn step(self, action: Action, today: Seq<char>, after: AppView) -> bool {
        match action {
            Action::Nothing | Action::Quit => after == self,
            Action::Show(screen) => after == (AppView { screen, ..self }),
            Action::Down { reorder } => {
                ||| after == self.moved(self.index + 1, reorder)
                ||| reorder && after == self
            },
            Action::Up { reorder } => {
                ||| after == self.moved(self.index - 1, reorder)
                ||| reorder && after == self
            },
            Action::Toggle => {
                ||| after == self
                ||| self.index < self.day.todos.len() && self.index_stays_summed(after) && after
                    == self.with_toggled().with_index_of(after)
            },
            Action::Delete => {
                ||| after == self
                ||| self.index < self.day.todos.len() && self.index_stays_summed(after) && after
                    == self.without_selected().with_index_of(after)
            },
            Action::NewDay => after == self || self.rolled_over(today, after),
            Action::TypeTodo(c) => after == (AppView { input: self.input.push(c), ..self }),
            Action::EraseTodo => after == (AppView { input: erased(self.input), ..self }),
            Action::CancelTodo => after == (AppView {
                input: Seq::empty(),
                screen: Screen::Todos,
                ..self
            }),
            Action::ConfirmTodo => self.confirmed(after),
            Action::DailyDown { reorder } => {
                let list = self.daily_todos;
                ||| after == (AppView {
                    daily_todos: list.moved(list.index + 1, reorder),
                    ..self
                })
                ||| reorder && after == self
            },
            Action::DailyUp { reorder } => {
                let list = self.daily_todos;
                ||| after == (AppView {
                    daily_todos: list.moved(list.index - 1, reorder),
                    ..self
                })
                ||| reorder && after == self
            },
            Action::DailyDelete => {
                ||| after == self
                ||| after == (AppView {
                    daily_todos: self.daily_todos.without_selected(),
                    ..self
                })
            },
            Action::TypeDaily(c) => after == (AppView {
                daily_todos: DailyListView {
                    input: self.daily_todos.input.push(c),
                    ..self.daily_todos
                },
                ..self
            }),
            Action::EraseDaily => after == (AppView {
                daily_todos: DailyListView {
                    input: erased(self.daily_todos.input),
                    ..self.daily_todos
                },
                ..self
            }),
            Action::CancelDaily => after == (AppView {
                screen: Screen::DailyTodos,
                daily_todos: DailyListView { input: Seq::empty(), ..self.daily_todos },
                ..self
            }),
            Action::ConfirmDaily => self.daily_confirmed(after),
            Action::TypeNotes(c) => after == (AppView {
                day: DayView { notes: self.day.notes.push(c), ..self.day },
                ..self
            }),
            Action::EraseNotes => after == (AppView {
                day: DayView { notes: erased(self.day.notes), ..self.day },
                ..self
            }),
            Action::SaveNotes => after == (AppView { screen: Screen::Notes, ..self }),
            Action::StatsPrevious => after == (AppView {
                stats_list: self.stats_list.after_previous(),
                ..self
            }),
            Action::StatsNext => after == (AppView {
                stats_list: self.stats_list.after_next(),
                ..self
            }),
            Action::LeaveStats => after == (AppView {
                input: Seq::empty(),
                screen: Screen::Todos,
                ..self
            }),
        }
    }
}

impl App {
    /// The session's invariant.
    pub open spec fn wf(&self) -> bool {
        self@.wf()
    }

    /// Says whether the session's invariant holds.
    pub fn valid(&self) -> (ok: bool)
        ensures
            ok == self.wf(),
    {
        self.day.valid() && self.daily_todos.valid() && (self.index == 0 || self.index
            < self.day.todos.len())
    }

    /// Picks the day to resume from the index of days: the last one listed,
    /// or none where the index is empty.
    pub fn resume_target(days: &Vec<DayShort>) -> (id: Option<i64>)
        ensures
            id == day_to_resume(days@),
    {
        if days.len() == 0 {
            None
        } else {
            Some(days[days.len() - 1].id)
        }
    }

    /// Puts a session together from what was loaded: the first todo
    /// selected, nothing typed, and text entry in focus where the day has no
    /// todos yet.
    pub fn start(
        db: rusqlite::Connection,
        day: Day,
        daily_todos: DailyTodoList,
        stats_list: StatsList,
    ) -> (app: App)
        requires
            day.wf(),
            daily_todos.wf(),
        ensures
            app.wf(),
            app@ == (AppView {
                index: 0,
                input: Seq::empty(),
                screen: first_screen(day@),
                day: day@,
                daily_todos: daily_todos@,
                stats_list: stats_list@,
            }),
    {
        let screen = if day.todos.len() == 0 {
            Screen::NewTodo
        } else {
            Screen::Todos
        };
        App { index: 0, input: String::new(), screen, db, day, daily_todos, stats_list }
    }

    /// Opens the day of a session: loads the day `target` where there is
    /// one to resume, and creates an empty day for `today` where there is
    /// none. No other day comes back than the one asked for.
    pub fn open_day(db: &rusqlite::Connection, target: Option<i64>, today: &str) -> (res: Result<
        Day,
        StoreError,
    >)
        ensures
            res matches Ok(day) ==> day.wf() && all_of_day(day.todos@, day.id),
            target matches Some(id) ==> (res matches Ok(day) ==> day.id == id),
            target is None ==> (res matches Ok(day) ==> day@.date == today@ && day@.todos.len()
                == 0 && day@.notes.len() == 0),
    {
        match target {
            Some(id) => Day::get(db, id),
            None => Day::new(db, today),
        }
    }

    /// Opens a session on `db`: resumes the last day that the store lists,
    /// or creates an empty day for `today` where it lists none. Whatever the
    /// store answers, the session that comes back is well-formed and at rest:
    /// first todo selected, nothing typed, the screen that goes with the day,
    /// a day that holds todos of its own only, and the cursor of the index on
    /// its last entry.
    pub fn new(db: rusqlite::Connection, today: &str) -> (res: Result<App, StoreError>)
        ensures
            res matches Ok(app) ==> app.wf() && app@.index == 0 && app@.input.len() == 0
                && app@.screen == first_screen(app@.day) && app@.daily_todos.index == 0
                && app@.daily_todos.input.len() == 0 && app@.stats_list.on_last() && all_summed(
                app@.stats_list.list,
            ) && all_of_day(app@.day.todos, app@.day.id),
    {
        let days = match DayShort::get_all(&db) {
            Ok(days) => days,
            Err(e) => { return Err(e); },
        };
        let day = match App::open_day(&db, App::resume_target(&days), today) {
            Ok(day) => day,
            Err(e) => { return Err(e); },
        };
        let daily_todos = match DailyTodoList::new(&db) {
            Ok(list) => list,
            Err(e) => { return Err(e); },
        };
        let stats_list = match StatsList::new(&db) {
            Ok(list) => list,
            Err(e) => { return Err(e); },
        };
        Ok(App::start(db, day, daily_todos, stats_list))
    }

    /// Gives the focus to `screen`.
    pub fn set_screen(&mut self, screen: Screen)
        ensures
            final(self)@ == (AppView { screen, ..old(self)@ }),
    {
        self.screen = screen;
    }

    /// Starts a day for `today` unless the active day already has that date:
    /// a fresh day that holds one open todo for each template, in template
    /// order, with the first one selected; the index of days follows. When
    /// the store refuses any of it, the session stays on the day it had.
    pub fn new_day(&mut self, today: &str) -> (res: Result<(), StoreError>)
        requires
            old(self).wf(),
        ensures
            res.is_ok() ==> old(self)@.rolled_over(today@, final(self)@),
            res.is_err() ==> final(self)@ == old(self)@ && old(self)@.day.date != today@ && res
                == Err::<(), StoreError>(StoreError::WriteFailed),
            final(self).wf(),
    {
        let date = today.to_owned();
        if date == self.day.date {
            return Ok(());
        }
        let mut day = match Day::new(&self.db, today) {
            Ok(day) => day,
            Err(e) => { return Err(e); },
        };
        let mut i: usize = 0;
        while i < self.daily_todos.list.len()
            invariant
                *self == *old(self),
                self.wf(),
                old(self)@.day.date != today@,
                i <= self.daily_todos.list@.len(),
                day.wf(),
                day@.date == today@,
                day@.notes.len() == 0,
                day@.todos.len() == i,
                forall|k: int|
                    0 <= k < i ==> {
                        &&& (#[trigger] day@.todos[k]).text@ == self.daily_todos.list@[k].text@
                        &&& !day@.todos[k].completed
                        &&& day@.todos[k].day_id == day@.id
                    },
            decreases self.daily_todos.list@.len() - i,
        {
            let todo = match Todo::new(&self.db, self.daily_todos.list[i].text.as_str(), day.id) {
                Ok(todo) => todo,
                Err(e) => { return Err(e); },
            };
            let added = day.add_todo(&self.db, todo);
            if added.is_err() {
                return added;
            }
            i += 1;
        }
        self.day = day;
        self.index = 0;
        let _ = self.stats_list.update(&self.db);
        Ok(())
    }

    /// Exchanges the selected todo with the one at `index` and writes the
    /// whole new order to the store. Out of bounds, nothing happens. When the
    /// store refuses, the session stays as it was.
    pub fn swap(&mut self, index: usize) -> (res: Result<(), StoreError>)
        requires
            old(self).wf(),
        ensures
            res.is_ok() && old(self)@.index < old(self)@.day.todos.len() && index < old(self)@.day.todos.len() ==> final(self)@ == (AppView {
                day: old(self)@.day.reordered(
                    renumbered(swapped(old(self)@.day.todos, old(self)@.index as int, index as int)),
                ),
                ..old(self)@
            }),
            !(old(self)@.index < old(self)@.day.todos.len() && index < old(self)@.day.todos.len())
                ==> res.is_ok() && final(self)@ == old(self)@,
            res.is_err() ==> final(self)@ == old(self)@ && res == Err::<(), StoreError>(
                StoreError::WriteFailed,
            ),
            final(self).wf(),
    {
        let selected = self.index;
        self.day.swap_todos(&self.db, selected, index)
    }

    /// Moves the selection one down, taking the selected todo along when
    /// `reorder` is set. At the end of the list nothing happens. When the
    /// store refuses the new order, the session stays as it was.
    pub fn next(&mut self, reorder: bool) -> (res: Result<(), StoreError>)
        requires
            old(self).wf(),
        ensures
            res.is_ok() ==> final(self)@ == old(self)@.moved(old(self)@.index + 1, reorder),
            res.is_err() ==> reorder && old(self)@.index + 1 < old(self)@.day.todos.len()
                && final(self)@ == old(self)@ && res == Err::<(), StoreError>(
                StoreError::WriteFailed,
            ),
            final(self).wf(),
    {
        if self.day.todos.len() > 0 && self.index < self.day.todos.len() - 1 {
            if reorder {
                let res = self.swap(self.index + 1);
                if res.is_err() {
                    return res;
                }
            }
            self.index += 1;
        }
        Ok(())
    }

    /// Moves the selection one up, taking the selected todo along when
    /// `reorder` is set. At the start of the list nothing happens. When the
    /// store refuses the new order, the session stays as it was.
    pub fn previous(&mut self, reorder: bool) -> (res: Result<(), StoreError>)
        requires
            old(self).wf(),
        ensures
            res.is_ok() ==> final(self)@ == old(self)@.moved(old(self)@.index - 1, reorder),
            res.is_err() ==> reorder && 0 < old(self)@.index < old(self)@.day.todos.len()
                && final(self)@ == old(self)@ && res == Err::<(), StoreError>(
                StoreError::WriteFailed,
            ),
            final(self).wf(),
    {
        if self.day.todos.len() > 0 && self.index > 0 {
            if reorder {
                let res = self.swap(self.index - 1);
                if res.is_err() {
                    return res;
                }
            }
            self.index -= 1;
        }
        Ok(())
    }

    /// Stores an open todo with `text` for the active day and appends it at
    /// the position of the old length; the counts and the index of days
    /// follow. An empty `text` adds nothing. When the store refuses, the
    /// session stays as it was.
    pub fn append(&mut self, text: &str) -> (res: Result<(), StoreError>)
        requires
            old(self).wf(),
        ensures
            text@.len() == 0 ==> res.is_ok() && final(self)@ == old(self)@,
            res.is_ok() && text@.len() > 0 ==> old(self)@.appended(text@, final(self)@),
            res.is_err() ==> final(self)@ == old(self)@ && res == Err::<(), StoreError>(
                StoreError::WriteFailed,
            ),
            final(self).wf(),
    {
        if text.is_empty() {
            return Ok(());
        }
        let todo = match Todo::new(&self.db, text, self.day.id) {
            Ok(todo) => todo,
            Err(e) => { return Err(e); },
        };
        let res = self.day.add_todo(&self.db, todo);
        if res.is_ok() {
            let _ = self.stats_list.update(&self.db);
            assert(self.day@.todos.drop_last() =~= old(self)@.day.todos);
        }
        res
    }

    /// Turns what was typed into a new todo, unless it is blank, and empties
    /// the entry buffer either way.
    pub fn create(&mut self) -> (res: Result<(), StoreError>)
        requires
            old(self).wf(),
        ensures
            final(self)@.input.len() == 0,
            trimmed(old(self)@.input).len() == 0 ==> res.is_ok() && final(self)@ == (AppView {
                input: Seq::empty(),
                ..old(self)@
            }),
            res.is_ok() && trimmed(old(self)@.input).len() > 0 ==> (AppView {
                input: Seq::empty(),
                ..old(self)@
            }).appended(trimmed(old(self)@.input), final(self)@),
            res.is_err() ==> final(self)@ == (AppView { input: Seq::empty(), ..old(self)@ })
                && res == Err::<(), StoreError>(StoreError::WriteFailed),
            final(self).wf(),
    {
        let text = trim(self.input.as_str());
        self.input = String::new();
        self.append(text.as_str())
    }

    /// Deletes the selected todo, moves the ones behind it up by one
    /// position and keeps the selection inside the list; the counts and the
    /// index of days follow. On an empty list nothing happens. When the store
    /// refuses, the session stays as it was.
    pub fn delete(&mut self) -> (res: Result<(), StoreError>)
        requires
            old(self).wf(),
        ensures
            res.is_ok() ==> final(self)@ == old(self)@.without_selected().with_index_of(
                final(self)@,
            ),
            old(self)@.index >= old(self)@.day.todos.len() ==> res.is_ok() && final(self)@
                == old(self)@,
            old(self)@.index_stays_summed(final(self)@),
            res.is_err() ==> final(self)@ == old(self)@ && res == Err::<(), StoreError>(
                StoreError::WriteFailed,
            ),
            final(self).wf(),
    {
        if self.index >= self.day.todos.len() {
            return Ok(());
        }
        let res = self.day.remove_todo(&self.db, self.index);
        if res.is_ok() {
            let _ = self.stats_list.update(&self.db);
            if self.index >= self.day.todos.len() && self.index != 0 {
                self.index -= 1;
            }
        }
        res
    }

    /// Toggles the selected todo; the counts and the index of days follow.
    /// On an empty list nothing happens. When the store refuses, the session
    /// stays as it was.
    pub fn toggle(&mut self) -> (res: Result<(), StoreError>)
        requires
            old(self).wf(),
        ensures
            res.is_ok() ==> final(self)@ == old(self)@.with_toggled().with_index_of(final(self)@),
            old(self)@.index >= old(self)@.day.todos.len() ==> res.is_ok() && final(self)@
                == old(self)@,
            old(self)@.index_stays_summed(final(self)@),
            res.is_err() ==> final(self)@ == old(self)@ && res == Err::<(), StoreError>(
                StoreError::WriteFailed,
            ),
            final(self).wf(),
    {
        if self.index >= self.day.todos.len() {
            return Ok(());
        }
        let res = self.day.toggle_todo(&self.db, self.index);
        if res.is_ok() {
            let _ = self.stats_list.update(&self.db);
        }
        res
    }

    /// Carries out `action` on the date `today` and says whether the
    /// session is over. A refusal of the store ends the action and leaves
    /// the session as `step` says.
    pub fn apply(&mut self, action: Action, today: &str) -> (quit: bool)
        requires
            old(self).wf(),
        ensures
            quit == (action == Action::Quit),
            old(self)@.step(action, today@, final(self)@),
            old(self)@.index_stays_summed(final(self)@),
            final(self)@.screen == screen_after(old(self)@.screen, action),
            final(self).wf(),
    {
        match action {
            Action::Nothing => {},
            Action::Quit => { return true; },
            Action::Show(screen) => self.set_screen(screen),
            Action::Down { reorder } => { let _ = self.next(reorder); },
            Action::Up { reorder } => { let _ = self.previous(reorder); },
            Action::Toggle => { let _ = self.toggle(); },
            Action::Delete => { let _ = self.delete(); },
            Action::NewDay => { let _ = self.new_day(today); },
            Action::TypeTodo(c) => push_char(&mut self.input, c),
            Action::EraseTodo => { let _ = pop_char(&mut self.input); },
            Action::CancelTodo => {
                self.input = String::new();
                self.set_screen(Screen::Todos);
            },
            Action::ConfirmTodo => {
                self.set_screen(Screen::Todos);
                let _ = self.create();
            },
            Action::DailyDown { reorder } => { let _ = self.daily_todos.next(&self.db, reorder); },
            Action::DailyUp { reorder } => { let _ = self.daily_todos.previous(&self.db, reorder); },
            Action::DailyDelete => { let _ = self.daily_todos.delete(&self.db); },
            Action::TypeDaily(c) => push_char(&mut self.daily_todos.input, c),
            Action::EraseDaily => { let _ = pop_char(&mut self.daily_todos.input); },
            Action::CancelDaily => {
                self.daily_todos.input = String::new();
                self.set_screen(Screen::DailyTodos);
            },
            Action::ConfirmDaily => {
                self.set_screen(Screen::DailyTodos);
                let _ = self.daily_todos.create(&self.db);
            },
            Action::TypeNotes(c) => push_char(&mut self.day.notes, c),
            Action::EraseNotes => { let _ = pop_char(&mut self.day.notes); },
            Action::SaveNotes => {
                self.set_screen(Screen::Notes);
                let _ = self.day.set_notes(&self.db);
            },
            Action::StatsPrevious => self.stats_list.previous(),
            Action::StatsNext => self.stats_list.next(),
            Action::LeaveStats => {
                self.input = String::new();
                self.set_screen(Screen::Todos);
            },
        }
        false
    }

    /// Handles one key press on the date `today`: looks up what the key
    /// means on the screen in focus and carries it out. `shift` says that
    /// shift, and nothing else, was held. Returns whether the session is over.
    pub fn handle_key(&mut self, key: Key, shift: bool, today: &str) -> (quit: bool)
        requires
            old(self).wf(),
        ensures
            quit == (action_of(old(self)@.screen, key, shift) == Action::Quit),
            old(self)@.step(action_of(old(self)@.screen, key, shift), today@, final(self)@),
            old(self)@.index_stays_summed(final(self)@),
            final(self)@.screen == screen_after(
                old(self)@.screen,
                action_of(old(self)@.screen, key, shift),
            ),
            final(self).wf(),
    {
        let action = action_for(self.screen, key, shift);
        self.apply(action, today)
    }
}

} // verus!
