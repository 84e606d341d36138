//! A todo of one day: the stored row, its display line and its store calls.

use vstd::prelude::*;
use vstd::utf8::{decode_utf8, valid_utf8};
use crate::store::{execute, last_insert_rowid, query, written, Param, SqlValue, StoreError};
use crate::text::utf8_text;

verus! {

/// One todo of a day. `position` is its rank in the day's list.
pub struct Todo {
    pub id: i64,
    pub position: i64,
    pub day_id: i64,
    pub text: String,
    pub completed: bool,
}

/// Every element sits at the position that equals its index.
pub open spec fn positions_dense(s: Seq<Todo>) -> bool {
    forall|i: int| 0 <= i < s.len() ==> (#[trigger] s[i]).position == i
}

/// The same elements, each with its index as position.
pub open spec fn renumbered(s: Seq<Todo>) -> Seq<Todo> {
    Seq::new(s.len(), |i: int| s[i].at_position(i))
}

/// The predicate "is completed".
pub open spec fn is_done() -> spec_fn(Todo) -> bool {
    |t: Todo| t.completed
}

/// How many elements are completed.
pub open spec fn count_done(s: Seq<Todo>) -> nat {
    s.filter(is_done()).len()
}

/// Whether a row read from the `todos` table has the five columns of a
/// todo: four integers and, in fourth place, a text in UTF-8.
pub open spec fn row_is_todo(row: Seq<SqlValue>) -> bool {
    &&& row.len() == 5
    &&& row[0] is Integer
    &&& row[1] is Integer
    &&& row[2] is Integer
    &&& row[3] matches SqlValue::Text(bytes) && valid_utf8(bytes@)
    &&& row[4] is Integer
}

/// Whether `todos` are the todos that a result set holds: one for each
/// well-shaped row, in order.
pub open spec fn rows_as_todos(rows: Seq<Vec<SqlValue>>, todos: Seq<Todo>) -> bool
    decreases rows.len(),
{
    if rows.len() == 0 {
        todos.len() == 0
    } else if row_is_todo(rows.last()@) {
        &&& todos.len() > 0
        &&& todos.last().stands_for(rows.last()@)
        &&& rows_as_todos(rows.drop_last(), todos.drop_last())
    } else {
        rows_as_todos(rows.drop_last(), todos)
    }
}

/// The writes that bring the stored positions in line with a list: for
/// each todo, in list order, its index as the new position and its id.
pub open spec fn position_writes(todos: Seq<Todo>) -> Seq<(i64, i64)> {
    Seq::new(todos.len(), |i: int| (i as i64, todos[i].id))
}

/// The write that places `item` behind the todos of a list: the length of
/// the list as the new position and the id of the item.
pub open spec fn append_write(todos: Seq<Todo>, item: Todo) -> (i64, i64) {
    (todos.len() as i64, item.id)
}

/// The predicate "belongs to day `day_id`".
pub open spec fn of_day(day_id: i64) -> spec_fn(Todo) -> bool {
    |t: Todo| t.day_id == day_id
}

/// Whether every todo of the list belongs to day `day_id`.
pub open spec fn all_of_day(s: Seq<Todo>, day_id: i64) -> bool {
    forall|i: int| 0 <= i < s.len() ==> (#[trigger] s[i]).day_id == day_id
}

/// Says whether every todo sits at the position that equals its index.
pub fn dense(todos: &Vec<Todo>) -> (ok: bool)
    ensures
        ok == positions_dense(todos@),
{
    let mut i: usize = 0;
    while i < todos.len()
        invariant
            i <= todos@.len(),
            forall|k: int| 0 <= k < i ==> (#[trigger] todos@[k]).position == k,
        decreases todos.len() - i,
    {
        if i as u64 > i64::MAX as u64 || todos[i].position != i as i64 {
            assert(todos@[i as int].position != i);
            return false;
        }
        i += 1;
    }
    true
}

impl Todo {
    /// This todo with its completed flag flipped.
    pub open spec fn toggled(self) -> Todo {
        Todo { completed: !self.completed, ..self }
    }

    /// This todo at position `p`.
    pub open spec fn at_position(self, p: int) -> Todo {
        Todo { position: p as i64, ..self }
    }

    /// The display line: a check box, a space, the text.
    pub open spec fn line(self) -> Seq<char> {
        if self.completed {
            "[x] "@ + self.text@
        } else {
            "[ ] "@ + self.text@
        }
    }

    /// Whether this todo holds what the well-shaped `row` says. A non-zero
    /// `completed` column means completed.
    pub open spec fn stands_for(self, row: Seq<SqlValue>) -> bool {
        &&& self.id == row[0]->Integer_0
        &&& self.day_id == row[1]->Integer_0
        &&& self.position == row[2]->Integer_0
        &&& self.text@ == decode_utf8(row[3]->Text_0@)
        &&& self.completed == (row[4]->Integer_0 != 0)
    }

    /// Reads one row of `SELECT id, day_id, position, text, completed`.
    pub fn from_row(row: &Vec<SqlValue>) -> (r: Option<Todo>)
        ensures
            r.is_some() == row_is_todo(row@),
            r matches Some(todo) ==> todo.stands_for(row@),
    {
        if row.len() != 5 {
            return None;
        }
        match (&row[0], &row[1], &row[2], &row[3], &row[4]) {
            (
                SqlValue::Integer(id),
                SqlValue::Integer(day_id),
                SqlValue::Integer(position),
                SqlValue::Text(bytes),
                SqlValue::Integer(completed),
            ) => match utf8_text(bytes) {
                Some(text) => Some(
                    Todo {
                        id: *id,
                        day_id: *day_id,
                        position: *position,
                        text,
                        completed: *completed != 0,
                    },
                ),
                None => None,
            },
            _ => None,
        }
    }

    /// Turns a result set into todos, skipping rows of another shape.
    pub fn from_rows(rows: &Vec<Vec<SqlValue>>) -> (todos: Vec<Todo>)
        ensures
            rows_as_todos(rows@, todos@),
    {
        let mut todos: Vec<Todo> = Vec::new();
        let mut i: usize = 0;
        while i < rows.len()
            invariant
                i <= rows.len(),
                rows_as_todos(rows@.take(i as int), todos@),
            decreases rows.len() - i,
        {
            proof {
                assert(rows@.take(i + 1).drop_last() == rows@.take(i as int));
            }
            let ghost before = todos@;
            match Todo::from_row(&rows[i]) {
                Some(todo) => {
                    todos.push(todo);
                    assert(todos@.drop_last() == before);
                },
                None => {},
            }
            i += 1;
        }
        proof {
            assert(rows@.take(i as int) == rows@);
        }
        todos
    }

    /// Inserts a new, open todo with `text` for day `day_id`. On success the
    /// todo returned holds what was stored; which id that is, the store
    /// decides. Its position is a first one only: the list that takes the
    /// todo in gives it its place.
    pub fn new(db: &rusqlite::Connection, text: &str, day_id: i64) -> (res: Result<Todo, StoreError>)
        ensures
            res matches Ok(t) ==> t.text@ == text@ && t.day_id == day_id && !t.completed,
            res matches Err(e) ==> e == StoreError::WriteFailed,
    {
        let inserted = written(
            execute(
                db,
                "INSERT INTO todos (text, completed, day_id) VALUES (?1, 0, ?2)",
                &vec![Param::Text(text.to_owned()), Param::Integer(day_id)],
            ),
        );
        if inserted.is_err() {
            return Err(StoreError::WriteFailed);
        }
        let id = last_insert_rowid(db);
        let placed = Todo::write_position(db, (id, id));
        if placed.is_err() {
            return Err(StoreError::WriteFailed);
        }
        Ok(Todo { id, day_id, position: id, text: text.to_owned(), completed: false })
    }

    /// Keeps the todos that belong to day `day_id`, in order.
    pub fn owned_by(todos: &Vec<Todo>, day_id: i64) -> (kept: Vec<Todo>)
        ensures
            kept@ == todos@.filter(of_day(day_id)),
            all_of_day(kept@, day_id),
    {
        let mut kept: Vec<Todo> = Vec::new();
        let mut i: usize = 0;
        while i < todos.len()
            invariant
                i <= todos@.len(),
                kept@ == todos@.take(i as int).filter(of_day(day_id)),
                all_of_day(kept@, day_id),
            decreases todos.len() - i,
        {
            proof {
                reveal(Seq::filter);
                assert(todos@.take(i + 1).drop_last() == todos@.take(i as int));
            }
            if todos[i].day_id == day_id {
                kept.push(
                    Todo {
                        id: todos[i].id,
                        position: todos[i].position,
                        day_id: todos[i].day_id,
                        text: todos[i].text.clone(),
                        completed: todos[i].completed,
                    },
                );
            }
            i += 1;
        }
        proof {
            assert(todos@.take(i as int) == todos@);
        }
        kept
    }

    /// Loads the todos of day `day_id`, ordered by stored position. Whatever
    /// the store lists, only todos of that day come back.
    pub fn get_all(db: &rusqlite::Connection, day_id: i64) -> (res: Result<Vec<Todo>, StoreError>)
        ensures
            res matches Ok(todos) ==> all_of_day(todos@, day_id),
            res matches Err(e) ==> e == StoreError::StorageUnavailable,
    {
        match query(
            db,
            "SELECT id, day_id, position, text, completed FROM todos WHERE day_id = ?1 ORDER BY position ASC",
            &vec![day_id],
        ) {
            Ok(rows) => Ok(Todo::owned_by(&Todo::from_rows(&rows), day_id)),
            Err(_) => Err(StoreError::StorageUnavailable),
        }
    }

    /// The display line of this todo.
    pub fn get_text(&self) -> (s: String)
        ensures
            s@ == self.line(),
    {
        let mut s = if self.completed {
            "[x] ".to_owned()
        } else {
            "[ ] ".to_owned()
        };
        s.append(self.text.as_str());
        s
    }

    /// Flips the completed flag, in the store first and then in memory. When
    /// the store refuses, the todo stays as it was.
    pub fn toggle(&mut self, db: &rusqlite::Connection) -> (res: Result<(), StoreError>)
        ensures
            res.is_ok() ==> *final(self) == old(self).toggled(),
            res.is_err() ==> *final(self) == *old(self) && res == Err::<(), StoreError>(
                StoreError::WriteFailed,
            ),
    {
        let res = written(
            execute(
                db,
                "UPDATE todos SET completed = 1 - completed WHERE id = ?1",
                &vec![Param::Integer(self.id)],
            ),
        );
        if res.is_ok() {
            self.completed = !self.completed;
        }
        res
    }

    /// Deletes this todo's row from the store.
    pub fn delete(&self, db: &rusqlite::Connection) -> (res: Result<(), StoreError>)
        ensures
            res.is_err() ==> res == Err::<(), StoreError>(StoreError::WriteFailed),
    {
        written(execute(db, "DELETE FROM todos WHERE id = ?1", &vec![Param::Integer(self.id)]))
    }

    /// Lists what is to be written so that the store has each todo at the
    /// position of its index: a pair of position and id for each todo, in
    /// list order.
    pub fn positions_to_write(todos: &[Todo]) -> (writes: Vec<(i64, i64)>)
        requires
            todos@.len() <= i64::MAX,
        ensures
            writes@ == position_writes(todos@),
    {
        let mut writes: Vec<(i64, i64)> = Vec::new();
        let mut i: usize = 0;
        while i < todos.len()
            invariant
                i <= todos@.len(),
                todos@.len() <= i64::MAX,
                writes@ == position_writes(todos@.take(i as int)),
            decreases todos.len() - i,
        {
            writes.push((i as i64, todos[i].id));
            i += 1;
        }
        writes
    }

    /// Says what is to be written so that the store has `item` behind the
    /// todos of the list: the length of the list and the id of the item.
    pub fn position_to_append(todos: &[Todo], item: &Todo) -> (write: (i64, i64))
        requires
            todos@.len() <= i64::MAX,
        ensures
            write == append_write(todos@, *item),
    {
        (todos.len() as i64, item.id)
    }

    /// Writes one position to the store: `write.0` for the todo with the id
    /// `write.1`.
    pub fn write_position(db: &rusqlite::Connection, write: (i64, i64)) -> (res: Result<
        (),
        StoreError,
    >)
        ensures
            res.is_err() ==> res == Err::<(), StoreError>(StoreError::WriteFailed),
    {
        written(
            execute(
                db,
                "UPDATE todos SET position = ?1 WHERE id = ?2",
                &vec![Param::Integer(write.0), Param::Integer(write.1)],
            ),
        )
    }

    /// Writes the positions of `writes` to the store, in order, and stops at
    /// the first write that fails. No writes cannot fail.
    pub fn write_positions(db: &rusqlite::Connection, writes: &Vec<(i64, i64)>) -> (res: Result<
        (),
        StoreError,
    >)
        ensures
            writes@.len() == 0 ==> res.is_ok(),
            res.is_err() ==> res == Err::<(), StoreError>(StoreError::WriteFailed),
    {
        let mut i: usize = 0;
        while i < writes.len()
            invariant
                i <= writes@.len(),
            decreases writes.len() - i,
        {
            let res = Todo::write_position(db, writes[i]);
            if res.is_err() {
                return res;
            }
            i += 1;
        }
        Ok(())
    }

    /// Writes each todo's index to the store as its position, in ascending
    /// index order, and stops at the first write that fails: the writes are
    /// those of `positions_to_write`. An empty list writes nothing and cannot
    /// fail.
    pub fn update_positions(db: &rusqlite::Connection, todos: &[Todo]) -> (res: Result<
        (),
        StoreError,
    >)
        requires
            todos@.len() <= i64::MAX,
        ensures
            todos@.len() == 0 ==> res.is_ok(),
            res.is_err() ==> res == Err::<(), StoreError>(StoreError::WriteFailed),
    {
        let writes = Todo::positions_to_write(todos);
        Todo::write_positions(db, &writes)
    }
}

} // verus!
