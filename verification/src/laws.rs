//! Laws of the model: what holds of every day, every list and every session,
//! stated over the functions that the contracts use.

use vstd::prelude::*;
use crate::app::AppView;
use crate::daily::clamped;
use crate::day::DayView;
use crate::keys::Action;
use crate::ordering::{lemma_renumbered_counts, lemma_reordered_counts, swapped};
use crate::text::{trimmed, trimmed_end, trimmed_start, white_space};
use crate::todo::{count_done, positions_dense, renumbered, Todo};

verus! {

/// A day that takes a new list of todos together with its counts has
/// current counts, whatever the list.
pub proof fn lemma_counts_follow_todos(day: DayView, todos: Seq<Todo>)
    requires
        todos.len() <= i64::MAX,
    ensures
        day.with_todos(todos).counts_current(),
        day.with_todos(todos).count_todos == todos.len(),
        day.with_todos(todos).done_todos == count_done(todos),
{
    lemma_count_at_most_len(todos);
}

/// No list has more completed todos than todos.
pub proof fn lemma_count_at_most_len(s: Seq<Todo>)
    ensures
        count_done(s) <= s.len(),
    decreases s.len(),
{
    reveal(Seq::filter);
    if s.len() > 0 {
        lemma_count_at_most_len(s.drop_last());
    }
}

/// Appending at the position of the old length keeps dense positions
/// dense.
pub proof fn lemma_append_keeps_dense(s: Seq<Todo>, item: Todo)
    requires
        positions_dense(s),
        s.len() < i64::MAX,
    ensures
        positions_dense(s.push(item.at_position(s.len() as int))),
{
}

/// After a removal and the renumbering that follows it, the positions are
/// dense, whatever they were.
pub proof fn lemma_remove_leaves_dense(s: Seq<Todo>, index: int)
    requires
        0 <= index < s.len(),
        s.len() <= i64::MAX,
    ensures
        positions_dense(renumbered(s.remove(index))),
        renumbered(s.remove(index)).len() == s.len() - 1,
{
}

/// After an exchange and the renumbering that follows it, the positions
/// are dense, whatever they were, and the same todos are completed.
pub proof fn lemma_swap_leaves_dense(s: Seq<Todo>, i: int, j: int)
    requires
        0 <= i < s.len(),
        0 <= j < s.len(),
        s.len() <= i64::MAX,
    ensures
        positions_dense(renumbered(swapped(s, i, j))),
        renumbered(swapped(s, i, j)).len() == s.len(),
        count_done(renumbered(swapped(s, i, j))) == count_done(s),
{
    lemma_reordered_counts(s, i, j);
}

/// Toggling a todo twice gives the todo back, and toggling never moves it.
pub proof fn lemma_toggle_twice(todo: Todo)
    ensures
        todo.toggled().toggled() == todo,
        todo.toggled().position == todo.position,
        todo.toggled().completed != todo.completed,
{
}

/// Toggling the selected todo of a well-formed session twice gives the
/// session back: the todo, its position, and the day's counts.
pub proof fn lemma_toggle_selected_twice(app: AppView)
    requires
        app.wf(),
    ensures
        app.with_toggled().with_toggled() == app,
        app.with_toggled().day.todos.len() == app.day.todos.len(),
        app.index < app.day.todos.len() ==> app.with_toggled().day.todos[app.index as int].position
            == app.day.todos[app.index as int].position,
{
    if app.index < app.day.todos.len() {
        let i = app.index as int;
        let once = app.day.todos.update(i, app.day.todos[i].toggled());
        let twice = once.update(i, once[i].toggled());
        assert(twice =~= app.day.todos);
        lemma_count_at_most_len(once);
    }
}

/// Toggling the selected todo keeps the session well-formed.
pub proof fn lemma_toggle_keeps_wf(app: AppView)
    requires
        app.wf(),
    ensures
        app.with_toggled().wf(),
{
    if app.index < app.day.todos.len() {
        let i = app.index as int;
        let once = app.day.todos.update(i, app.day.todos[i].toggled());
        lemma_count_at_most_len(once);
    }
}

/// Deleting while the last todo is selected leaves the selection on the
/// new last todo, or on zero where none is left; deleting on an empty list
/// changes nothing.
pub proof fn lemma_delete_clamps_selection(app: AppView)
    requires
        app.wf(),
    ensures
        app.day.todos.len() == 0 ==> app.without_selected() == app,
        app.day.todos.len() == 1 && app.index == 0 ==> app.without_selected().index == 0,
        app.day.todos.len() >= 2 && app.index == app.day.todos.len() - 1
            ==> app.without_selected().index == app.day.todos.len() - 2,
        app.without_selected().wf(),
{
    if app.index < app.day.todos.len() {
        let rest = app.day.todos.remove(app.index as int);
        lemma_renumbered_counts(rest);
        lemma_count_at_most_len(rest);
    }
}

/// The selection after a deletion is inside the list, or zero on an empty
/// list.
pub proof fn lemma_clamped_in_bounds(index: usize, len: nat)
    requires
        index <= len,
    ensures
        clamped(index, len) == 0 || clamped(index, len) < len,
{
}

/// Rolling over twice to the same date starts one day: the second call
/// changes nothing.
pub proof fn lemma_rollover_once(before: AppView, today: Seq<char>, between: AppView, after: AppView)
    requires
        before.rolled_over(today, between),
        between.rolled_over(today, after),
    ensures
        after == between,
        between.day.date == today,
{
}

/// A rollover, whether it starts a day or not, keeps the session
/// well-formed, and the day it leaves has one todo for each template unless
/// it is the day that was already active.
pub proof fn lemma_rollover_keeps_wf(before: AppView, today: Seq<char>, after: AppView)
    requires
        before.wf(),
        before.rolled_over(today, after),
    ensures
        after.wf(),
        before.day.date != today ==> after.day.todos.len() == before.daily_todos.list.len()
            && after.day.count_todos == after.day.todos.len() && after.index == 0,
{
}

/// No action takes a well-formed session to one that is not: after every
/// action the counts are those of the todos, the positions of both lists are
/// dense and both selections are inside their lists.
pub proof fn lemma_step_keeps_wf(before: AppView, action: Action, today: Seq<char>, after: AppView)
    requires
        before.wf(),
        before.step(action, today, after),
    ensures
        after.wf(),
{
    match action {
        Action::Down { reorder } => {
            let target = before.index + 1;
            if reorder && 0 <= target < before.day.todos.len() {
                lemma_reordered_counts(before.day.todos, before.index as int, target);
            }
        },
        Action::Up { reorder } => {
            let target = before.index - 1;
            if reorder && 0 <= target < before.day.todos.len() && before.index
                < before.day.todos.len() {
                lemma_reordered_counts(before.day.todos, before.index as int, target);
            }
        },
        Action::Toggle => {
            lemma_toggle_keeps_wf(before);
        },
        Action::Delete => {
            lemma_delete_clamps_selection(before);
        },
        Action::ConfirmTodo => {
            lemma_count_at_most_len(after.day.todos);
            assert forall|k: int| 0 <= k < after.day.todos.len() implies (
            #[trigger] after.day.todos[k]).position == k by {
                if after.day.todos != before.day.todos && k < before.day.todos.len() {
                    assert(after.day.todos.drop_last()[k] == after.day.todos[k]);
                }
            }
        },
        Action::ConfirmDaily => {
            let list = after.daily_todos.list;
            assert forall|k: int| 0 <= k < list.len() implies (#[trigger] list[k]).position == k by {
                if list != before.daily_todos.list && k < before.daily_todos.list.len() {
                    assert(list.drop_last()[k] == list[k]);
                }
            }
        },
        _ => {},
    }
}

/// What is left of a text without its leading white space is the end of
/// the text, and does not start with white space.
pub proof fn lemma_trimmed_start(s: Seq<char>)
    ensures
        trimmed_start(s).len() <= s.len(),
        trimmed_start(s) == s.skip(s.len() - trimmed_start(s).len()),
        trimmed_start(s).len() > 0 ==> !white_space(trimmed_start(s).first()),
    decreases s.len(),
{
    if s.len() > 0 && white_space(s.first()) {
        lemma_trimmed_start(s.drop_first());
    }
}

/// What is left of a text without its trailing white space is the start of
/// the text, and does not end with white space.
pub proof fn lemma_trimmed_end(s: Seq<char>)
    ensures
        trimmed_end(s).len() <= s.len(),
        trimmed_end(s) == s.take(trimmed_end(s).len() as int),
        trimmed_end(s).len() > 0 ==> !white_space(trimmed_end(s).last()),
    decreases s.len(),
{
    if s.len() > 0 && white_space(s.last()) {
        lemma_trimmed_end(s.drop_last());
    }
}

/// A trimmed text has no white space at either end, so trimming it again
/// changes nothing.
pub proof fn lemma_trim_twice(s: Seq<char>)
    ensures
        trimmed(trimmed(s)) == trimmed(s),
        trimmed(s).len() > 0 ==> !white_space(trimmed(s).first()) && !white_space(
            trimmed(s).last(),
        ),
{
    lemma_trimmed_start(s);
    lemma_trimmed_end(trimmed_start(s));
}

/// A text of nothing but white space trims to the empty text.
pub proof fn lemma_blank_trims_to_nothing(s: Seq<char>)
    requires
        forall|i: int| 0 <= i < s.len() ==> white_space(#[trigger] s[i]),
    ensures
        trimmed(s).len() == 0,
    decreases s.len(),
{
    if s.len() > 0 {
        lemma_blank_trims_to_nothing(s.drop_first());
    }
}

/// An entry of spaces, tabs and line breaks is blank.
pub proof fn lemma_spaces_are_blank(s: Seq<char>)
    requires
        forall|i: int| 0 <= i < s.len() ==> #[trigger] s[i] == ' ' || s[i] == '\t' || s[i] == '\n',
    ensures
        trimmed(s).len() == 0,
{
    assert forall|i: int| 0 <= i < s.len() implies white_space(#[trigger] s[i]) by {
        assert(white_space(' ') && white_space('\t') && white_space('\n'));
    }
    lemma_blank_trims_to_nothing(s);
}

/// Confirming a blank entry creates nothing: the session is back on the
/// todo list with an empty buffer and the todos it had.
pub proof fn lemma_blank_entry_creates_nothing(before: AppView, after: AppView)
    requires
        forall|i: int| 0 <= i < before.input.len() ==> white_space(#[trigger] before.input[i]),
        before.confirmed(after),
    ensures
        after.day == before.day,
        after.screen == crate::keys::Screen::Todos,
        after.input.len() == 0,
{
    lemma_blank_trims_to_nothing(before.input);
}

/// A todo that an entry created holds the entry trimmed, which is not
/// empty and stays as it is when trimmed again.
pub proof fn lemma_created_todo_has_text(before: AppView, after: AppView)
    requires
        before.confirmed(after),
        after.day.todos.len() != before.day.todos.len(),
    ensures
        after.day.todos.len() == before.day.todos.len() + 1,
        after.day.todos.last().text@ == trimmed(before.input),
        trimmed(after.day.todos.last().text@).len() > 0,
{
    lemma_trim_twice(before.input);
}

} // verus!
