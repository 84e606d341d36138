//! A day: its todos in order, its notes, and the counts derived from the
//! todos. Every change goes to the store first; memory follows only when the
//! store accepted all of it.

use vstd::prelude::*;
use crate::ordering::{
    exchange, lemma_renumbered_counts, lemma_reordered_counts, renumber, swapped,
};
use vstd::utf8::{decode_utf8, valid_utf8};
use crate::store::{execute, last_insert_rowid, query, written, Param, SqlValue, StoreError};
use crate::text::utf8_text;
use crate::text::decimal_string;
use crate::text::decimal;
use crate::todo::{
    all_of_day, count_done, dense, is_done, positions_dense, renumbered, Todo,
};

verus! {

/// One calendar day with the todos it owns.
pub struct Day {
    pub id: i64,
    pub count_todos: i64,
    pub done_todos: i64,
    pub notes: String,
    pub date: String,
    pub todos: Vec<Todo>,
}

/// What a day is, to the contracts: its fields, with texts as sequences of
/// characters and the todos as a sequence.
pub ghost struct DayView {
    pub id: i64,
    pub count_todos: i64,
    pub done_todos: i64,
    pub notes: Seq<char>,
    pub date: Seq<char>,
    pub todos: Seq<Todo>,
}

impl View for Day {
    type V = DayView;

    open spec fn view(&self) -> DayView {
        DayView {
            id: self.id,
            count_todos: self.count_todos,
            done_todos: self.done_todos,
            notes: self.notes@,
            date: self.date@,
            todos: self.todos@,
        }
    }
}

impl DayView {
    /// The list is short enough for every index to be a position.
    pub open spec fn bounded(self) -> bool {
        self.todos.len() <= i64::MAX
    }

    /// The cached counts are those of the todos.
    pub open spec fn counts_current(self) -> bool {
        &&& self.count_todos == self.todos.len()
        &&& self.done_todos == count_done(self.todos)
    }

    /// The day's invariant: current counts and dense positions.
    pub open spec fn wf(self) -> bool {
        &&& self.bounded()
        &&& self.counts_current()
        &&& positions_dense(self.todos)
    }

    /// This day with `todos` in place of its own and the counts that go with
    /// them.
    pub open spec fn with_todos(self, todos: Seq<Todo>) -> DayView {
        DayView {
            todos,
            count_todos: todos.len() as i64,
            done_todos: count_done(todos) as i64,
            ..self
        }
    }

    /// This day with the todos in the order `todos`, counts untouched.
    pub open spec fn reordered(self, todos: Seq<Todo>) -> DayView {
        DayView { todos, ..self }
    }
}

/// Whether a row read from the `days` table has the five columns of a
/// day: three integers and two texts in UTF-8.
pub open spec fn row_is_day(row: Seq<SqlValue>) -> bool {
    &&& row.len() == 5
    &&& row[0] is Integer
    &&& row[1] is Integer
    &&& row[2] is Integer
    &&& row[3] matches SqlValue::Text(notes) && valid_utf8(notes@)
    &&& row[4] matches SqlValue::Text(date) && valid_utf8(date@)
}

/// Counts the todos and the completed ones among them.
pub fn tally(todos: &Vec<Todo>) -> (counts: (i64, i64))
    requires
        todos@.len() <= i64::MAX,
    ensures
        counts.0 == todos@.len(),
        counts.1 == count_done(todos@),
{
    let mut done: i64 = 0;
    let mut i: usize = 0;
    while i < todos.len()
        invariant
            i <= todos.len(),
            todos@.len() <= i64::MAX,
            done == count_done(todos@.take(i as int)),
            done <= i,
        decreases todos.len() - i,
    {
        proof {
            reveal(Seq::filter);
            assert(todos@.take(i + 1).drop_last() == todos@.take(i as int));
        }
        if todos[i].completed {
            done += 1;
        }
        i += 1;
    }
    proof {
        assert(todos@.take(i as int) == todos@);
    }
    (todos.len() as i64, done)
}

impl Day {
    /// The list is short enough for every index to be a position.
    pub open spec fn bounded(&self) -> bool {
        self@.bounded()
    }

    /// The day's invariant: current counts and dense positions.
    pub open spec fn wf(&self) -> bool {
        self@.wf()
    }

    /// Says whether the day's invariant holds.
    pub fn valid(&self) -> (ok: bool)
        ensures
            ok == self.wf(),
    {
        if self.todos.len() as u64 > i64::MAX as u64 {
            return false;
        }
        let (total, done) = tally(&self.todos);
        self.count_todos == total && self.done_todos == done && dense(&self.todos)
    }

    /// Inserts a day for `date` with no todos and empty notes. Which id it
    /// gets, the store decides.
    pub fn new(db: &rusqlite::Connection, date: &str) -> (res: Result<Day, StoreError>)
        ensures
            res matches Ok(day) ==> day.wf() && day.todos@.len() == 0 && day.date@ == date@
                && day.notes@.len() == 0 && day.count_todos == 0 && day.done_todos == 0,
            res matches Err(e) ==> e == StoreError::WriteFailed,
    {
        let inserted = written(
            execute(
                db,
                "INSERT INTO days (count_todos, done_todos, notes, date) VALUES (0,0,'',?1)",
                &vec![Param::Text(date.to_owned())],
            ),
        );
        if inserted.is_err() {
            return Err(StoreError::WriteFailed);
        }
        let id = last_insert_rowid(db);
        let day = Day {
            id,
            count_todos: 0,
            done_todos: 0,
            notes: String::new(),
            date: date.to_owned(),
            todos: Vec::new(),
        };
        proof {
            reveal(Seq::filter);
        }
        Ok(day)
    }

    /// Builds the day that a `days` row and its todos, in stored order, stand
    /// for. The todos get their rank in that order as position and the counts
    /// are taken from the todos, not from the row.
    pub fn from_row(row: &Vec<SqlValue>, todos: Vec<Todo>) -> (res: Option<Day>)
        ensures
            res.is_some() == (row_is_day(row@) && todos@.len() <= i64::MAX),
            res matches Some(day) ==> day.wf() && day.id == row@[0]->Integer_0 && day@.notes
                == decode_utf8(row@[3]->Text_0@) && day@.date == decode_utf8(row@[4]->Text_0@)
                && day.todos@ == renumbered(todos@),
    {
        if row.len() != 5 || todos.len() as u64 > i64::MAX as u64 {
            return None;
        }
        match (&row[0], &row[1], &row[2], &row[3], &row[4]) {
            (
                SqlValue::Integer(id),
                SqlValue::Integer(_),
                SqlValue::Integer(_),
                SqlValue::Text(notes),
                SqlValue::Text(date),
            ) => {
                let (notes, date) = match (utf8_text(notes), utf8_text(date)) {
                    (Some(notes), Some(date)) => (notes, date),
                    _ => { return None; },
                };
                let mut todos = todos;
                renumber(&mut todos);
                let (count_todos, done_todos) = tally(&todos);
                Some(Day { id: *id, count_todos, done_todos, notes, date, todos })
            },
            _ => None,
        }
    }

    /// Whether `res` is what a lookup of day `day_id` gives when the store
    /// answered with `row` and listed `todos` for the day: the day that
    /// `from_row` builds; `NotFound` where the row is that of another day;
    /// `StorageUnavailable` where it is the row of no day at all, or the todos
    /// are too many for their positions.
    pub open spec fn settles(
        day_id: i64,
        row: Seq<SqlValue>,
        todos: Seq<Todo>,
        res: Result<Day, StoreError>,
    ) -> bool {
        if !row_is_day(row) || todos.len() > i64::MAX {
            res matches Err(e) && e == StoreError::StorageUnavailable
        } else if row[0]->Integer_0 != day_id {
            res matches Err(e) && e == StoreError::NotFound
        } else {
            res matches Ok(day) && day.wf() && day.id == day_id && day@.notes == decode_utf8(
                row[3]->Text_0@,
            ) && day@.date == decode_utf8(row[4]->Text_0@) && day.todos@ == renumbered(todos)
        }
    }

    /// Settles what a lookup of day `day_id` gives, from the row that the
    /// store answered with and the todos that it listed for the day.
    pub fn found(day_id: i64, row: &Vec<SqlValue>, todos: Vec<Todo>) -> (res: Result<
        Day,
        StoreError,
    >)
        ensures
            Day::settles(day_id, row@, todos@, res),
    {
        match Day::from_row(row, todos) {
            Some(day) => if day.id == day_id {
                Ok(day)
            } else {
                Err(StoreError::NotFound)
            },
            None => Err(StoreError::StorageUnavailable),
        }
    }

    /// Settles what a lookup of day `day_id` gives, from all the rows that
    /// the store answered with and the todos that it listed for the day: no
    /// row means that the day was not found, and the first row decides
    /// otherwise.
    pub fn answered(day_id: i64, rows: &Vec<Vec<SqlValue>>, todos: Vec<Todo>) -> (res: Result<
        Day,
        StoreError,
    >)
        ensures
            rows@.len() == 0 ==> (res matches Err(e) && e == StoreError::NotFound),
            rows@.len() > 0 ==> Day::settles(day_id, rows@[0]@, todos@, res),
    {
        if rows.len() == 0 {
            Err(StoreError::NotFound)
        } else {
            Day::found(day_id, &rows[0], todos)
        }
    }

    /// Loads day `day_id` with its todos: asks the store for the row of the
    /// day and, where there is one, for the todos of the day, and lets
    /// `answered` settle the result. The day that comes back is well-formed,
    /// is the one asked for and holds todos of its own only.
    pub fn get(db: &rusqlite::Connection, day_id: i64) -> (res: Result<Day, StoreError>)
        ensures
            res matches Ok(day) ==> day.wf() && day.id == day_id && all_of_day(day.todos@, day_id),
            res matches Err(e) ==> e != StoreError::WriteFailed,
    {
        let rows = match query(
            db,
            "SELECT id, count_todos, done_todos, notes, date FROM days WHERE id = ?1 LIMIT 1",
            &vec![day_id],
        ) {
            Ok(rows) => rows,
            Err(_) => { return Err(StoreError::StorageUnavailable); },
        };
        let todos = if rows.len() == 0 {
            Vec::new()
        } else {
            match Todo::get_all(db, day_id) {
                Ok(todos) => todos,
                Err(e) => { return Err(e); },
            }
        };
        Day::answered(day_id, &rows, todos)
    }

    /// Writes the notes to the store. The day itself does not change.
    pub fn set_notes(&mut self, db: &rusqlite::Connection) -> (res: Result<(), StoreError>)
        ensures
            final(self)@ == old(self)@,
            res.is_err() ==> res == Err::<(), StoreError>(StoreError::WriteFailed),
    {
        written(
            execute(
                db,
                "UPDATE days SET notes = ?1 WHERE id = ?2",
                &vec![Param::Text(self.notes.clone()), Param::Integer(self.id)],
            ),
        )
    }

    /// Recounts the todos, writes both counts to the store and then keeps
    /// them. When the store refuses, the cached counts stay as they were.
    pub fn update_counts(&mut self, db: &rusqlite::Connection) -> (res: Result<(), StoreError>)
        requires
            old(self).bounded(),
        ensures
            res.is_ok() ==> final(self)@ == old(self)@.with_todos(old(self).todos@),
            res.is_ok() ==> final(self)@.counts_current(),
            res.is_err() ==> final(self)@ == old(self)@ && res == Err::<(), StoreError>(
                StoreError::WriteFailed,
            ),
    {
        let (total, done) = tally(&self.todos);
        let res = written(
            execute(
                db,
                "UPDATE days SET count_todos = ?1, done_todos = ?2 WHERE id = ?3",
                &vec![Param::Integer(total), Param::Integer(done), Param::Integer(self.id)],
            ),
        );
        if res.is_ok() {
            self.count_todos = total;
            self.done_todos = done;
        }
        res
    }

    /// Appends `item` at the end: its position becomes the length before the
    /// call, in the store first, by the write of `position_to_append`, and
    /// then in memory, and the counts follow. When the store refuses any of
    /// it, the day stays as it was.
    pub fn add_todo(&mut self, db: &rusqlite::Connection, item: Todo) -> (res: Result<
        (),
        StoreError,
    >)
        requires
            old(self).bounded(),
        ensures
            res.is_ok() ==> final(self)@ == old(self)@.with_todos(
                old(self).todos@.push(item.at_position(old(self).todos@.len() as int)),
            ),
            res.is_ok() ==> final(self)@.counts_current() && final(self).bounded(),
            res.is_ok() && positions_dense(old(self).todos@) ==> final(self).wf(),
            res.is_err() ==> final(self)@ == old(self)@ && res == Err::<(), StoreError>(
                StoreError::WriteFailed,
            ),
    {
        if self.todos.len() as u64 >= i64::MAX as u64 {
            return Err(StoreError::WriteFailed);
        }
        let write = Todo::position_to_append(self.todos.as_slice(), &item);
        let placed = Todo::write_position(db, write);
        if placed.is_err() {
            return placed;
        }
        let mut item = item;
        item.position = write.0;
        self.todos.push(item);
        let res = self.update_counts(db);
        if res.is_err() {
            self.todos.pop();
            assert(self.todos@ =~= old(self).todos@);
        }
        res
    }

    /// Removes the todo at `index`: its row is deleted, the todos behind it
    /// move up by one position, and the counts follow. When the store
    /// refuses any of it, the day stays as it was.
    pub fn remove_todo(&mut self, db: &rusqlite::Connection, index: usize) -> (res: Result<
        (),
        StoreError,
    >)
        requires
            old(self).bounded(),
            index < old(self).todos@.len(),
        ensures
            res.is_ok() ==> final(self)@ == old(self)@.with_todos(
                renumbered(old(self).todos@.remove(index as int)),
            ) && final(self).wf(),
            res.is_err() ==> final(self)@ == old(self)@ && res == Err::<(), StoreError>(
                StoreError::WriteFailed,
            ),
    {
        let deleted = self.todos[index].delete(db);
        if deleted.is_err() {
            return deleted;
        }
        let removed = self.todos.remove(index);
        let mut res = Todo::update_positions(db, self.todos.as_slice());
        if res.is_ok() {
            res = self.update_counts(db);
        }
        if res.is_err() {
            self.todos.insert(index, removed);
            assert(self.todos@ =~= old(self).todos@);
            return res;
        }
        renumber(&mut self.todos);
        proof {
            lemma_renumbered_counts(old(self).todos@.remove(index as int));
        }
        res
    }

    /// Exchanges the todos at `i` and `j` and writes the whole new order to
    /// the store. Out of bounds, nothing happens. When the store refuses, the
    /// day stays as it was.
    pub fn swap_todos(&mut self, db: &rusqlite::Connection, i: usize, j: usize) -> (res: Result<
        (),
        StoreError,
    >)
        requires
            old(self).bounded(),
        ensures
            res.is_ok() && i < old(self).todos@.len() && j < old(self).todos@.len() ==> final(self)@ == old(self)@.reordered(
                renumbered(swapped(old(self).todos@, i as int, j as int)),
            ),
            !(i < old(self).todos@.len() && j < old(self).todos@.len()) ==> res.is_ok() && final(self)@ == old(self)@,
            res.is_err() ==> final(self)@ == old(self)@ && res == Err::<(), StoreError>(
                StoreError::WriteFailed,
            ),
            res.is_ok() && i < old(self).todos@.len() && j < old(self).todos@.len()
                ==> positions_dense(final(self).todos@),
            old(self).wf() ==> final(self).wf(),
    {
        proof {
            if i < self.todos@.len() && j < self.todos@.len() {
                lemma_reordered_counts(self.todos@, i as int, j as int);
            }
        }
        if i >= self.todos.len() || j >= self.todos.len() {
            return Ok(());
        }
        exchange(&mut self.todos, i, j);
        let res = Todo::update_positions(db, self.todos.as_slice());
        if res.is_err() {
            exchange(&mut self.todos, i, j);
            assert(self.todos@ =~= old(self).todos@);
            return res;
        }
        renumber(&mut self.todos);
        res
    }

    /// Flips the completed flag of the todo at `index` and recounts. Out of
    /// bounds, nothing happens. When the store refuses any of it, the day
    /// stays as it was.
    pub fn toggle_todo(&mut self, db: &rusqlite::Connection, index: usize) -> (res: Result<
        (),
        StoreError,
    >)
        requires
            old(self).bounded(),
        ensures
            res.is_ok() && index < old(self).todos@.len() ==> final(self)@ == old(self)@.with_todos(
                old(self).todos@.update(index as int, old(self).todos@[index as int].toggled()),
            ),
            index >= old(self).todos@.len() ==> res.is_ok() && final(self)@ == old(self)@,
            res.is_ok() && index < old(self).todos@.len() ==> final(self)@.counts_current(),
            old(self).wf() ==> final(self).wf(),
            res.is_err() ==> final(self)@ == old(self)@ && res == Err::<(), StoreError>(
                StoreError::WriteFailed,
            ),
    {
        if index >= self.todos.len() {
            return Ok(());
        }
        let flipped = self.todos[index].toggle(db);
        if flipped.is_err() {
            assert(self.todos@ =~= old(self).todos@);
            return flipped;
        }
        let res = self.update_counts(db);
        if res.is_err() {
            let was = self.todos[index].completed;
            self.todos[index].completed = !was;
            assert(self.todos@ =~= old(self).todos@);
        }
        res
    }
}

/// The text of a day in the index: done todos, a slash, all todos.
pub open spec fn summary(done: nat, count: nat) -> Seq<char> {
    decimal(done) + "/"@ + decimal(count)
}

/// Whether a row of the day index has an id, a date and two counts.
pub open spec fn row_is_day_short(row: Seq<SqlValue>) -> bool {
    &&& row.len() == 4
    &&& row[0] is Integer
    &&& row[1] matches SqlValue::Text(date) && valid_utf8(date@)
    &&& row[2] matches SqlValue::Integer(count) && 0 <= count <= usize::MAX
    &&& row[3] matches SqlValue::Integer(done) && 0 <= done <= usize::MAX
}

/// The index entries that a result set holds: one for each well-shaped row,
/// in order.
pub open spec fn rows_as_index(rows: Seq<Vec<SqlValue>>, entries: Seq<DayShort>) -> bool
    decreases rows.len(),
{
    if rows.len() == 0 {
        entries.len() == 0
    } else if row_is_day_short(rows.last()@) {
        &&& entries.len() > 0
        &&& entries.last().stands_for(rows.last()@)
        &&& rows_as_index(rows.drop_last(), entries.drop_last())
    } else {
        rows_as_index(rows.drop_last(), entries)
    }
}

/// Whether the text of every entry is its number of completed todos over
/// some total.
pub open spec fn all_summed(entries: Seq<DayShort>) -> bool {
    forall|i: int| 0 <= i < entries.len() ==> (#[trigger] entries[i]).summed()
}

/// A day as the index lists it: without its todos.
pub struct DayShort {
    pub id: i64,
    pub date: String,
    pub string: String,
    pub done: usize,
}

impl DayShort {
    /// Whether the text of this entry is its number of completed todos, a
    /// slash and some total.
    pub open spec fn summed(self) -> bool {
        exists|count: nat| self.string@ == #[trigger] summary(self.done as nat, count)
    }

    /// This entry holds what the well-shaped `row` says.
    pub open spec fn stands_for(self, row: Seq<SqlValue>) -> bool {
        &&& self.id == row[0]->Integer_0
        &&& self.date@ == decode_utf8(row[1]->Text_0@)
        &&& self.done == row[3]->Integer_0
        &&& self.string@ == summary(row[3]->Integer_0 as nat, row[2]->Integer_0 as nat)
    }

    /// Puts the two numbers of a day, as written, around a slash.
    pub fn label(done: &str, count: &str) -> (s: String)
        ensures
            s@ == done@ + "/"@ + count@,
    {
        let mut s = done.to_owned();
        s.append("/");
        s.append(count);
        s
    }

    /// Reads one row of `SELECT id, date, count_todos, done_todos`.
    pub fn from_row(row: &Vec<SqlValue>) -> (r: Option<DayShort>)
        ensures
            r.is_some() == row_is_day_short(row@),
            r matches Some(entry) ==> entry.stands_for(row@) && entry.summed(),
    {
        if row.len() != 4 {
            return None;
        }
        match (&row[0], &row[1], &row[2], &row[3]) {
            (
                SqlValue::Integer(id),
                SqlValue::Text(date),
                SqlValue::Integer(count),
                SqlValue::Integer(done),
            ) => {
                if *count < 0 || *done < 0 || *count as u64 > usize::MAX as u64 || *done as u64
                    > usize::MAX as u64 {
                    return None;
                }
                let date = match utf8_text(date) {
                    Some(date) => date,
                    None => { return None; },
                };
                let string = DayShort::label(
                    decimal_string(*done as usize).as_str(),
                    decimal_string(*count as usize).as_str(),
                );
                let entry = DayShort { id: *id, date, string, done: *done as usize };
                assert(entry.string@ == summary(entry.done as nat, *count as nat));
                Some(entry)
            },
            _ => None,
        }
    }

    /// Turns a result set into index entries, skipping rows of another shape.
    pub fn from_rows(rows: &Vec<Vec<SqlValue>>) -> (entries: Vec<DayShort>)
        ensures
            rows_as_index(rows@, entries@),
            all_summed(entries@),
    {
        let mut entries: Vec<DayShort> = Vec::new();
        let mut i: usize = 0;
        while i < rows.len()
            invariant
                i <= rows.len(),
                rows_as_index(rows@.take(i as int), entries@),
                all_summed(entries@),
            decreases rows.len() - i,
        {
            proof {
                assert(rows@.take(i + 1).drop_last() == rows@.take(i as int));
            }
            let ghost before = entries@;
            match DayShort::from_row(&rows[i]) {
                Some(entry) => {
                    entries.push(entry);
                    assert(entries@.drop_last() == before);
                },
                None => {},
            }
            i += 1;
        }
        proof {
            assert(rows@.take(i as int) == rows@);
        }
        entries
    }

    /// Loads the index of all days, in the order the store lists them.
    /// Whatever it lists, the text of each entry is its number of completed
    /// todos over a total.
    pub fn get_all(db: &rusqlite::Connection) -> (res: Result<Vec<DayShort>, StoreError>)
        ensures
            res matches Ok(entries) ==> all_summed(entries@),
            res matches Err(e) ==> e == StoreError::StorageUnavailable,
    {
        match query(db, "SELECT id, date, count_todos, done_todos FROM days", &Vec::new()) {
            Ok(rows) => Ok(DayShort::from_rows(&rows)),
            Err(_) => Err(StoreError::StorageUnavailable),
        }
    }
}

} // verus!
