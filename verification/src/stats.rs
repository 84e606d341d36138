//! The cursor over the index of all days.

use vstd::prelude::*;
use crate::day::{all_summed, Day, DayShort, DayView};
use crate::store::StoreError;

verus! {

/// The index of all days with a cursor on one of them.
pub struct StatsList {
    pub index: usize,
    pub list: Vec<DayShort>,
}

/// What the index is, to the contracts.
pub ghost struct StatsView {
    pub index: usize,
    pub list: Seq<DayShort>,
}

impl View for StatsList {
    type V = StatsView;

    open spec fn view(&self) -> StatsView {
        StatsView { index: self.index, list: self.list@ }
    }
}

impl StatsView {
    /// The cursor one entry further, or where it is at the last entry.
    pub open spec fn after_next(self) -> StatsView {
        if self.list.len() > 0 && self.index < self.list.len() - 1 {
            StatsView { index: (self.index + 1) as usize, ..self }
        } else {
            self
        }
    }

    /// The cursor is on the last entry, or on zero where there is none.
    pub open spec fn on_last(self) -> bool {
        if self.list.len() > 0 {
            self.index == self.list.len() - 1
        } else {
            self.index == 0
        }
    }

    /// Whether `day` can be what the cursor shows: the day that the entry
    /// under it names, or the blank day.
    pub open spec fn shows(self, day: DayView) -> bool {
        ||| day == blank_day()
        ||| self.index < self.list.len() && day.id == self.list[self.index as int].id
    }

    /// The cursor one entry back, or where it is at the first entry.
    pub open spec fn after_previous(self) -> StatsView {
        if self.list.len() > 0 && self.index > 0 {
            StatsView { index: (self.index - 1) as usize, ..self }
        } else {
            self
        }
    }
}

/// The day shown where the cursor points at no entry: no todos, no notes,
/// the date `0000-00-00`.
pub open spec fn blank_day() -> DayView {
    DayView {
        id: 0,
        count_todos: 0,
        done_todos: 0,
        notes: Seq::empty(),
        date: "0000-00-00"@,
        todos: Seq::empty(),
    }
}

impl StatsList {
    /// The index over `list` with the cursor on the last entry, or on zero
    /// where there is none.
    pub fn over(list: Vec<DayShort>) -> (res: Self)
        ensures
            res@.list == list@,
            res@.on_last(),
    {
        let index = if list.len() > 0 {
            list.len() - 1
        } else {
            0
        };
        Self { index, list }
    }

    /// Loads the index from the store, with the cursor on the last entry.
    /// Whatever the store lists, the text of each entry is its number of
    /// completed todos over a total.
    pub fn new(db: &rusqlite::Connection) -> (res: Result<Self, StoreError>)
        ensures
            res matches Ok(stats) ==> stats@.on_last() && all_summed(stats@.list),
            res matches Err(e) ==> e == StoreError::StorageUnavailable,
    {
        match DayShort::get_all(db) {
            Ok(list) => Ok(Self::over(list)),
            Err(e) => Err(e),
        }
    }

    /// Takes what the store listed in place of the entries, and keeps the
    /// cursor. A listing that failed leaves the index as it was.
    pub fn refresh(&mut self, listing: Result<Vec<DayShort>, StoreError>) -> (res: Result<
        (),
        StoreError,
    >)
        ensures
            listing matches Ok(list) ==> res.is_ok() && final(self)@ == (StatsView {
                list: list@,
                ..old(self)@
            }),
            listing matches Err(e) ==> res == Err::<(), StoreError>(e) && final(self)@ == old(
                self,
            )@,
    {
        match listing {
            Ok(list) => {
                self.list = list;
                Ok(())
            },
            Err(e) => Err(e),
        }
    }

    /// Loads the index again and keeps the cursor: afterwards the text of
    /// each entry is its number of completed todos over a total. When the
    /// store cannot be read, the index stays as it was.
    pub fn update(&mut self, db: &rusqlite::Connection) -> (res: Result<(), StoreError>)
        ensures
            final(self)@.index == old(self)@.index,
            res.is_ok() ==> all_summed(final(self)@.list),
            res.is_err() ==> final(self)@ == old(self)@ && res == Err::<(), StoreError>(
                StoreError::StorageUnavailable,
            ),
    {
        self.refresh(DayShort::get_all(db))
    }

    /// A day without todos or notes, dated `0000-00-00`.
    pub fn blank() -> (day: Day)
        ensures
            day@ == blank_day(),
            day.wf(),
    {
        let day = Day {
            id: 0,
            count_todos: 0,
            done_todos: 0,
            notes: String::new(),
            date: "0000-00-00".to_owned(),
            todos: Vec::new(),
        };
        proof {
            reveal(Seq::filter);
        }
        day
    }

    /// Settles what the cursor shows, given what the store said of the
    /// entry under it: the loaded day, or the blank day where the row is gone.
    pub fn shown(loaded: Result<Day, StoreError>) -> (res: Result<Day, StoreError>)
        ensures
            loaded is Ok ==> res == loaded,
            loaded == Err::<Day, StoreError>(StoreError::NotFound) ==> res is Ok && res.unwrap()@
                == blank_day(),
            loaded is Err && loaded != Err::<Day, StoreError>(StoreError::NotFound) ==> res
                == loaded,
    {
        match loaded {
            Ok(day) => Ok(day),
            Err(StoreError::NotFound) => Ok(Self::blank()),
            Err(e) => Err(e),
        }
    }

    /// Loads the day under the cursor. Where the cursor points at no entry,
    /// or the entry's row is gone, the result is the blank day; no other day
    /// comes back than the one that the entry names.
    pub fn get_current(&self, db: &rusqlite::Connection) -> (res: Result<Day, StoreError>)
        ensures
            res matches Ok(day) ==> day.wf() && self@.shows(day@),
            self@.index >= self@.list.len() ==> res is Ok && res.unwrap()@ == blank_day(),
    {
        if self.index < self.list.len() {
            Self::shown(Day::get(db, self.list[self.index].id))
        } else {
            Ok(Self::blank())
        }
    }

    /// Moves the cursor to the next day; stays at the last one.
    pub fn next(&mut self)
        ensures
            final(self)@ == old(self)@.after_next(),
    {
        if self.list.len() > 0 && self.index < self.list.len() - 1 {
            self.index += 1;
        }
    }

    /// Moves the cursor to the previous day; stays at the first one.
    pub fn previous(&mut self)
        ensures
            final(self)@ == old(self)@.after_previous(),
    {
        if self.list.len() > 0 && self.index > 0 {
            self.index -= 1;
        }
    }
}

} // verus!
