//! Daily todos: the templates that every new day starts with, and the list
//! screen that edits them.

use vstd::prelude::*;
use crate::ordering::{exchange, swapped};
use vstd::utf8::{decode_utf8, valid_utf8};
use crate::store::{execute, last_insert_rowid, query, written, Param, SqlValue, StoreError};
use crate::text::utf8_text;
use crate::text::{trim, trimmed};

verus! {

/// One recurring todo. `position` is its rank in the list of templates.
pub struct DailyTodo {
    pub id: i64,
    pub position: i64,
    pub text: String,
}

/// Every template sits at the position that equals its index.
pub open spec fn positions_dense(s: Seq<DailyTodo>) -> bool {
    forall|i: int| 0 <= i < s.len() ==> (#[trigger] s[i]).position == i
}

/// The same templates, each with its index as position.
pub open spec fn renumbered(s: Seq<DailyTodo>) -> Seq<DailyTodo> {
    Seq::new(s.len(), |i: int| s[i].at_position(i))
}

/// The writes that bring the stored positions in line with a list: for
/// each template, in list order, its index as the new position and its id.
pub open spec fn position_writes(list: Seq<DailyTodo>) -> Seq<(i64, i64)> {
    Seq::new(list.len(), |i: int| (i as i64, list[i].id))
}

/// The write that places `item` behind the templates of a list: the length
/// of the list as the new position and the id of the item.
pub open spec fn append_write(list: Seq<DailyTodo>, item: DailyTodo) -> (i64, i64) {
    (list.len() as i64, item.id)
}

/// Whether a row read from the `daily_todos` table has the three columns
/// of a template: two integers and a text in UTF-8.
pub open spec fn row_is_daily(row: Seq<SqlValue>) -> bool {
    &&& row.len() == 3
    &&& row[0] is Integer
    &&& row[1] is Integer
    &&& row[2] matches SqlValue::Text(bytes) && valid_utf8(bytes@)
}

/// Whether `list` holds the templates of a result set: one for each
/// well-shaped row, in order.
pub open spec fn rows_as_dailies(rows: Seq<Vec<SqlValue>>, list: Seq<DailyTodo>) -> bool
    decreases rows.len(),
{
    if rows.len() == 0 {
        list.len() == 0
    } else if row_is_daily(rows.last()@) {
        &&& list.len() > 0
        &&& list.last().stands_for(rows.last()@)
        &&& rows_as_dailies(rows.drop_last(), list.drop_last())
    } else {
        rows_as_dailies(rows.drop_last(), list)
    }
}

/// Gives every template its index as position.
pub fn renumber(list: &mut Vec<DailyTodo>)
    requires
        old(list)@.len() <= i64::MAX,
    ensures
        final(list)@ == renumbered(old(list)@),
{
    let mut i: usize = 0;
    while i < list.len()
        invariant
            i <= list.len(),
            list@.len() == old(list)@.len(),
            list@.len() <= i64::MAX,
            forall|k: int| 0 <= k < i ==> list@[k] == old(list)@[k].at_position(k),
            forall|k: int| i <= k < list@.len() ==> list@[k] == old(list)@[k],
        decreases list.len() - i,
    {
        list[i].position = i as i64;
        i += 1;
    }
}

impl DailyTodo {
    /// This template at position `p`.
    pub open spec fn at_position(self, p: int) -> DailyTodo {
        DailyTodo { position: p as i64, ..self }
    }

    /// Whether this template holds what the well-shaped `row` says.
    pub open spec fn stands_for(self, row: Seq<SqlValue>) -> bool {
        &&& self.id == row[0]->Integer_0
        &&& self.position == row[1]->Integer_0
        &&& self.text@ == decode_utf8(row[2]->Text_0@)
    }

    /// Reads one row of `SELECT id, position, text`.
    pub fn from_row(row: &Vec<SqlValue>) -> (r: Option<DailyTodo>)
        ensures
            r.is_some() == row_is_daily(row@),
            r matches Some(todo) ==> todo.stands_for(row@),
    {
        if row.len() != 3 {
            return None;
        }
        match (&row[0], &row[1], &row[2]) {
            (SqlValue::Integer(id), SqlValue::Integer(position), SqlValue::Text(bytes)) => {
                match utf8_text(bytes) {
                    Some(text) => Some(DailyTodo { id: *id, position: *position, text }),
                    None => None,
                }
            },
            _ => None,
        }
    }

    /// Turns a result set into templates, skipping rows of another shape.
    pub fn from_rows(rows: &Vec<Vec<SqlValue>>) -> (list: Vec<DailyTodo>)
        ensures
            rows_as_dailies(rows@, list@),
    {
        let mut list: Vec<DailyTodo> = Vec::new();
        let mut i: usize = 0;
        while i < rows.len()
            invariant
                i <= rows.len(),
                rows_as_dailies(rows@.take(i as int), list@),
            decreases rows.len() - i,
        {
            proof {
                assert(rows@.take(i + 1).drop_last() == rows@.take(i as int));
            }
            let ghost before = list@;
            match DailyTodo::from_row(&rows[i]) {
                Some(todo) => {
                    list.push(todo);
                    assert(list@.drop_last() == before);
                },
                None => {},
            }
            i += 1;
        }
        proof {
            assert(rows@.take(i as int) == rows@);
        }
        list
    }

    /// Inserts a new template with `text`. Which id it gets, the store
    /// decides. Its position is a first one only: the list that takes the
    /// template in gives it its place.
    pub fn new(db: &rusqlite::Connection, text: &str) -> (res: Result<DailyTodo, StoreError>)
        ensures
            res matches Ok(t) ==> t.text@ == text@,
            res matches Err(e) ==> e == StoreError::WriteFailed,
    {
        let inserted = written(
            execute(
                db,
                "INSERT INTO daily_todos (text) VALUES (?1)",
                &vec![Param::Text(text.to_owned())],
            ),
        );
        if inserted.is_err() {
            return Err(StoreError::WriteFailed);
        }
        let id = last_insert_rowid(db);
        let placed = DailyTodo::write_position(db, (id, id));
        if placed.is_err() {
            return Err(StoreError::WriteFailed);
        }
        Ok(DailyTodo { id, position: id, text: text.to_owned() })
    }

    /// Loads all templates, ordered by stored position.
    pub fn get_all(db: &rusqlite::Connection) -> (res: Result<Vec<DailyTodo>, StoreError>)
        ensures
            res matches Err(e) ==> e == StoreError::StorageUnavailable,
    {
        match query(
            db,
            "SELECT id, position, text FROM daily_todos ORDER BY position ASC",
            &Vec::new(),
        ) {
            Ok(rows) => Ok(DailyTodo::from_rows(&rows)),
            Err(_) => Err(StoreError::StorageUnavailable),
        }
    }

    /// Lists what is to be written so that the store has each template at
    /// the position of its index: a pair of position and id for each
    /// template, in list order.
    pub fn positions_to_write(todos: &[DailyTodo]) -> (writes: Vec<(i64, i64)>)
        requires
            todos@.len() <= i64::MAX,
        ensures
            writes@ == position_writes(todos@),
    {
        let mut writes: Vec<(i64, i64)> = Vec::new();
        let mut i: usize = 0;
        while i < todos.len()
            invariant
                i <= todos@.len(),
                todos@.len() <= i64::MAX,
                writes@ == position_writes(todos@.take(i as int)),
            decreases todos.len() - i,
        {
            writes.push((i as i64, todos[i].id));
            i += 1;
        }
        writes
    }

    /// Says what is to be written so that the store has `item` behind the
    /// templates of the list: the length of the list and the id of the item.
    pub fn position_to_append(todos: &[DailyTodo], item: &DailyTodo) -> (write: (i64, i64))
        requires
            todos@.len() <= i64::MAX,
        ensures
            write == append_write(todos@, *item),
    {
        (todos.len() as i64, item.id)
    }

    /// Writes one position to the store: `write.0` for the template with
    /// the id `write.1`.
    pub fn write_position(db: &rusqlite::Connection, write: (i64, i64)) -> (res: Result<
        (),
        StoreError,
    >)
        ensures
            res.is_err() ==> res == Err::<(), StoreError>(StoreError::WriteFailed),
    {
        written(
            execute(
                db,
                "UPDATE daily_todos SET position = ?1 WHERE id = ?2",
                &vec![Param::Integer(write.0), Param::Integer(write.1)],
            ),
        )
    }

    /// Writes the positions of `writes` to the store, in order, and stops at
    /// the first write that fails. No writes cannot fail.
    pub fn write_positions(db: &rusqlite::Connection, writes: &Vec<(i64, i64)>) -> (res: Result<
        (),
        StoreError,
    >)
        ensures
            writes@.len() == 0 ==> res.is_ok(),
            res.is_err() ==> res == Err::<(), StoreError>(StoreError::WriteFailed),
    {
        let mut i: usize = 0;
        while i < writes.len()
            invariant
                i <= writes@.len(),
            decreases writes.len() - i,
        {
            let res = DailyTodo::write_position(db, writes[i]);
            if res.is_err() {
                return res;
            }
            i += 1;
        }
        Ok(())
    }

    /// Writes each template's index to the store as its position, in
    /// ascending index order, and stops at the first write that fails: the
    /// writes are those of `positions_to_write`. An empty list writes nothing
    /// and cannot fail.
    pub fn update_positions(db: &rusqlite::Connection, todos: &[DailyTodo]) -> (res: Result<
        (),
        StoreError,
    >)
        requires
            todos@.len() <= i64::MAX,
        ensures
            todos@.len() == 0 ==> res.is_ok(),
            res.is_err() ==> res == Err::<(), StoreError>(StoreError::WriteFailed),
    {
        let writes = DailyTodo::positions_to_write(todos);
        DailyTodo::write_positions(db, &writes)
    }

    /// The display line of this template: its text.
    pub fn get_text(&self) -> (s: String)
        ensures
            s@ == self.text@,
    {
        self.text.clone()
    }

    /// Deletes this template's row from the store.
    pub fn delete(&self, db: &rusqlite::Connection) -> (res: Result<(), StoreError>)
        ensures
            res.is_err() ==> res == Err::<(), StoreError>(StoreError::WriteFailed),
    {
        written(
            execute(db, "DELETE FROM daily_todos WHERE id = ?1", &vec![Param::Integer(self.id)]),
        )
    }
}

/// The list of templates with its selection and its entry buffer.
pub struct DailyTodoList {
    pub index: usize,
    pub input: String,
    pub list: Vec<DailyTodo>,
}

/// What the list of templates is, to the contracts.
pub ghost struct DailyListView {
    pub index: usize,
    pub input: Seq<char>,
    pub list: Seq<DailyTodo>,
}

impl View for DailyTodoList {
    type V = DailyListView;

    open spec fn view(&self) -> DailyListView {
        DailyListView { index: self.index, input: self.input@, list: self.list@ }
    }
}

/// The selection after the element at `index` left a list that now has `len`
/// elements: one step back where it would point behind the end, never below
/// zero.
pub open spec fn clamped(index: usize, len: nat) -> usize {
    if index >= len && index != 0 {
        (index - 1) as usize
    } else {
        index
    }
}

impl DailyListView {
    /// The selection points at an element, or is zero on an empty list.
    pub open spec fn selection_valid(self) -> bool {
        self.index == 0 || self.index < self.list.len()
    }

    /// The list's invariant: dense positions and a valid selection.
    pub open spec fn wf(self) -> bool {
        &&& self.list.len() <= i64::MAX
        &&& positions_dense(self.list)
        &&& self.selection_valid()
    }

    /// Whether `after` is this list with one more template at the end that
    /// holds `text` at the position of the old length. Its id is the store's.
    pub open spec fn appended(self, text: Seq<char>, after: DailyListView) -> bool {
        &&& after.index == self.index
        &&& after.list.len() == self.list.len() + 1
        &&& after.list.len() <= i64::MAX
        &&& after.list.drop_last() == self.list
        &&& after.list.last().text@ == text
        &&& after.list.last().position == self.list.len()
    }
}

impl DailyTodoList {
    /// The list's invariant: dense positions and a valid selection.
    pub open spec fn wf(&self) -> bool {
        self@.wf()
    }

    /// Says whether the list's invariant holds.
    pub fn valid(&self) -> (ok: bool)
        ensures
            ok == self.wf(),
    {
        if self.list.len() as u64 > i64::MAX as u64 {
            return false;
        }
        if !(self.index == 0 || self.index < self.list.len()) {
            return false;
        }
        let mut i: usize = 0;
        while i < self.list.len()
            invariant
                i <= self.list@.len(),
                self.list@.len() <= i64::MAX,
                forall|k: int| 0 <= k < i ==> (#[trigger] self.list@[k]).position == k,
            decreases self.list.len() - i,
        {
            if self.list[i].position != i as i64 {
                return false;
            }
            i += 1;
        }
        true
    }

    /// The list as loaded: `list` in order, each template at its rank, the
    /// first one selected and nothing typed.
    pub fn from_templates(list: Vec<DailyTodo>) -> (res: Self)
        requires
            list@.len() <= i64::MAX,
        ensures
            res.wf(),
            res@ == (DailyListView { index: 0, input: Seq::empty(), list: renumbered(list@) }),
    {
        let mut list = list;
        renumber(&mut list);
        Self { index: 0, input: String::new(), list }
    }

    /// Settles what loading the templates gives, from what the store
    /// listed: the list of `from_templates`, unless the listing failed or is
    /// too long for its positions.
    pub fn loaded(listing: Result<Vec<DailyTodo>, StoreError>) -> (res: Result<Self, StoreError>)
        ensures
            listing matches Ok(list) ==> (list@.len() <= i64::MAX ==> (res matches Ok(loaded)
                && loaded.wf() && loaded@ == (DailyListView {
                index: 0,
                input: Seq::empty(),
                list: renumbered(list@),
            }))),
            listing matches Ok(list) ==> (list@.len() > i64::MAX ==> (res matches Err(e) && e
                == StoreError::StorageUnavailable)),
            listing matches Err(e) ==> (res matches Err(same) && same == e),
    {
        match listing {
            Ok(list) => {
                if list.len() as u64 > i64::MAX as u64 {
                    return Err(StoreError::StorageUnavailable);
                }
                Ok(Self::from_templates(list))
            },
            Err(e) => Err(e),
        }
    }

    /// Loads the templates from the store.
    pub fn new(db: &rusqlite::Connection) -> (res: Result<Self, StoreError>)
        ensures
            res matches Ok(list) ==> list.wf() && list.index == 0 && list.input@.len() == 0,
            res matches Err(e) ==> e == StoreError::StorageUnavailable,
    {
        Self::loaded(DailyTodo::get_all(db))
    }

    /// Exchanges the selected template with the one at `index` and writes
    /// the whole new order to the store. Out of bounds, nothing happens. When
    /// the store refuses, the list stays as it was.
    pub fn swap(&mut self, db: &rusqlite::Connection, index: usize) -> (res: Result<(), StoreError>)
        requires
            old(self).list@.len() <= i64::MAX,
        ensures
            res.is_ok() && old(self).index < old(self).list@.len() && index < old(self).list@.len()
                ==> final(self)@ == (DailyListView {
                list: renumbered(swapped(old(self).list@, old(self).index as int, index as int)),
                ..old(self)@
            }),
            !(old(self).index < old(self).list@.len() && index < old(self).list@.len())
                ==> res.is_ok() && final(self)@ == old(self)@,
            res.is_err() ==> final(self)@ == old(self)@ && res == Err::<(), StoreError>(
                StoreError::WriteFailed,
            ),
            old(self).wf() ==> final(self).wf(),
    {
        let selected = self.index;
        if selected >= self.list.len() || index >= self.list.len() {
            return Ok(());
        }
        exchange(&mut self.list, selected, index);
        let res = DailyTodo::update_positions(db, self.list.as_slice());
        if res.is_err() {
            exchange(&mut self.list, selected, index);
            assert(self.list@ =~= old(self).list@);
            return res;
        }
        renumber(&mut self.list);
        res
    }

    /// Moves the selection one down, taking the selected template along
    /// when `reorder` is set. At the end of the list nothing happens. When
    /// the store refuses the new order, the list stays as it was.
    pub fn next(&mut self, db: &rusqlite::Connection, reorder: bool) -> (res: Result<(), StoreError>)
        requires
            old(self).list@.len() <= i64::MAX,
        ensures
            res.is_ok() ==> final(self)@ == old(self)@.moved(old(self).index + 1, reorder),
            res.is_err() ==> reorder && old(self).index + 1 < old(self).list@.len() && final(self)@ == old(self)@ && res == Err::<(), StoreError>(StoreError::WriteFailed),
            old(self).wf() ==> final(self).wf(),
    {
        if self.list.len() > 0 && self.index < self.list.len() - 1 {
            if reorder {
                let res = self.swap(db, self.index + 1);
                if res.is_err() {
                    return res;
                }
            }
            self.index += 1;
        }
        Ok(())
    }

    /// Moves the selection one up, taking the selected template along when
    /// `reorder` is set. At the start of the list nothing happens. When the
    /// store refuses the new order, the list stays as it was.
    pub fn previous(&mut self, db: &rusqlite::Connection, reorder: bool) -> (res: Result<
        (),
        StoreError,
    >)
        requires
            old(self).list@.len() <= i64::MAX,
        ensures
            res.is_ok() ==> final(self)@ == old(self)@.moved(old(self).index - 1, reorder),
            res.is_err() ==> reorder && 0 < old(self).index < old(self).list@.len() && final(self)@ == old(self)@ && res == Err::<(), StoreError>(StoreError::WriteFailed),
            old(self).wf() ==> final(self).wf(),
    {
        if self.list.len() > 0 && self.index > 0 && self.index < self.list.len() {
            if reorder {
                let res = self.swap(db, self.index - 1);
                if res.is_err() {
                    return res;
                }
            }
            self.index -= 1;
        }
        Ok(())
    }

    /// Stores a template with `text` and appends it at the position of the
    /// old length. An empty `text` adds nothing. When the store refuses, the
    /// list stays as it was.
    pub fn append(&mut self, db: &rusqlite::Connection, text: &str) -> (res: Result<(), StoreError>)
        requires
            old(self).list@.len() <= i64::MAX,
        ensures
            text@.len() == 0 ==> res.is_ok() && final(self)@ == old(self)@,
            res.is_ok() && text@.len() > 0 ==> old(self)@.appended(text@, final(self)@),
            res.is_err() ==> final(self)@ == old(self)@ && res == Err::<(), StoreError>(
                StoreError::WriteFailed,
            ),
            final(self)@.input == old(self)@.input,
            old(self).wf() ==> final(self).wf(),
    {
        if text.is_empty() {
            return Ok(());
        }
        if self.list.len() as u64 >= i64::MAX as u64 {
            return Err(StoreError::WriteFailed);
        }
        let mut todo = match DailyTodo::new(db, text) {
            Ok(todo) => todo,
            Err(e) => { return Err(e); },
        };
        let write = DailyTodo::position_to_append(self.list.as_slice(), &todo);
        let placed = DailyTodo::write_position(db, write);
        if placed.is_err() {
            return placed;
        }
        todo.position = write.0;
        self.list.push(todo);
        assert(self.list@.drop_last() =~= old(self).list@);
        Ok(())
    }

    /// Turns what was typed into a new template, unless it is blank, and
    /// empties the entry buffer either way.
    pub fn create(&mut self, db: &rusqlite::Connection) -> (res: Result<(), StoreError>)
        requires
            old(self).list@.len() <= i64::MAX,
        ensures
            final(self)@.input == Seq::<char>::empty(),
            trimmed(old(self)@.input).len() == 0 ==> res.is_ok() && final(self)@.list == old(self)@.list && final(self)@.index == old(self)@.index,
            res.is_ok() && trimmed(old(self)@.input).len() > 0 ==> old(self)@.appended(
                trimmed(old(self)@.input),
                final(self)@,
            ),
            res.is_err() ==> final(self)@.list == old(self)@.list && final(self)@.index == old(self)@.index && res == Err::<(), StoreError>(StoreError::WriteFailed),
            old(self).wf() ==> final(self).wf(),
    {
        let text = trim(self.input.as_str());
        let res = self.append(db, text.as_str());
        self.input = String::new();
        res
    }

    /// Deletes the selected template, moves the ones behind it up by one
    /// position and keeps the selection inside the list. On an empty list
    /// nothing happens. When the store refuses, the list stays as it was.
    pub fn delete(&mut self, db: &rusqlite::Connection) -> (res: Result<(), StoreError>)
        requires
            old(self).list@.len() <= i64::MAX,
        ensures
            res.is_ok() ==> final(self)@ == old(self)@.without_selected(),
            old(self).index >= old(self).list@.len() ==> res.is_ok(),
            res.is_err() ==> final(self)@ == old(self)@ && res == Err::<(), StoreError>(
                StoreError::WriteFailed,
            ),
            old(self).wf() ==> final(self).wf(),
    {
        let index = self.index;
        if index >= self.list.len() {
            return Ok(());
        }
        let deleted = self.list[index].delete(db);
        if deleted.is_err() {
            return deleted;
        }
        let removed = self.list.remove(index);
        let res = DailyTodo::update_positions(db, self.list.as_slice());
        if res.is_err() {
            self.list.insert(index, removed);
            assert(self.list@ =~= old(self).list@);
            return res;
        }
        renumber(&mut self.list);
        if self.index >= self.list.len() && self.index != 0 {
            self.index -= 1;
        }
        res
    }
}

impl DailyListView {
    /// This list after the selection went to `target`, one step up or down:
    /// unchanged where `target` is no index of the list; else with the
    /// selection at `target` and, where `reorder` is set, the two templates
    /// exchanged and renumbered.
    pub open spec fn moved(self, target: int, reorder: bool) -> DailyListView {
        if !(0 <= target < self.list.len() && self.index < self.list.len()) {
            self
        } else if reorder {
            DailyListView {
                index: target as usize,
                list: renumbered(swapped(self.list, self.index as int, target)),
                ..self
            }
        } else {
            DailyListView { index: target as usize, ..self }
        }
    }

    /// This list without the selected template: the rest renumbered and the
    /// selection clamped. Unchanged where nothing is selected.
    pub open spec fn without_selected(self) -> DailyListView {
        if self.index >= self.list.len() {
            self
        } else {
            DailyListView {
                index: clamped(self.index, (self.list.len() - 1) as nat),
                list: renumbered(self.list.remove(self.index as int)),
                ..self
            }
        }
    }
}

} // verus!
