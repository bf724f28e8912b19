use vstd::prelude::*;
use crate::error::TodoError;
use crate::models::{Priority, Todo};
use crate::storage::{can_fail_load, can_fail_save, can_load, can_save, Storage};

verus! {

// ---------------------------------------------------------------------------
// The model: a task list is the sequence of its tasks, in stored order.
// ---------------------------------------------------------------------------

/// The largest id in `s`, or 0 when `s` is empty.
pub open spec fn max_id(s: Seq<Todo>) -> nat
    decreases s.len(),
{
    if s.len() == 0 {
        0
    } else {
        let m = max_id(s.drop_last());
        if s.last().id > m {
            s.last().id as nat
        } else {
            m
        }
    }
}

/// The list `s` with a new open task appended, whose id is one more than the
/// largest id in `s`.
pub open spec fn added(s: Seq<Todo>, text: String, priority: Priority) -> Seq<Todo> {
    s.push(Todo { id: (max_id(s) + 1) as u32, text, done: false, priority })
}

/// The tasks whose `done` flag is `done`.
pub open spec fn done_is(done: bool) -> spec_fn(Todo) -> bool {
    |t: Todo| t.done == done
}

/// The tasks whose id is not `id`.
pub open spec fn id_is_not(id: u32) -> spec_fn(Todo) -> bool {
    |t: Todo| t.id != id
}

/// What a listing with `filter` shows of `s`: the finished tasks for
/// `"done"`, the open ones for `"pending"`, and all of them otherwise.
pub open spec fn listed(s: Seq<Todo>, filter: Option<Seq<char>>) -> Seq<Todo> {
    if filter == Some("done"@) {
        s.filter(done_is(true))
    } else if filter == Some("pending"@) {
        s.filter(done_is(false))
    } else {
        s
    }
}

/// The view of an optional string slice.
pub open spec fn opt_view(f: Option<&str>) -> Option<Seq<char>> {
    match f {
        Some(s) => Some(s@),
        None => None,
    }
}

/// Some task of `s` has id `id`.
pub open spec fn has_id(s: Seq<Todo>, id: u32) -> bool {
    exists|i: int| 0 <= i < s.len() && #[trigger] s[i].id == id
}

/// `i` is the position of the first task of `s` with id `id`.
pub open spec fn first_with_id(s: Seq<Todo>, id: u32, i: int) -> bool {
    &&& 0 <= i < s.len()
    &&& s[i].id == id
    &&& forall|j: int| 0 <= j < i ==> #[trigger] s[j].id != id
}

/// The task at position `i` of `s`, with its `done` flag set to `done`.
pub open spec fn with_done_at(s: Seq<Todo>, i: int, done: bool) -> Seq<Todo> {
    s.update(i, Todo { done, ..s[i] })
}

/// `after` is `before` with the first task of id `id` marked `done`.
pub open spec fn marked(before: Seq<Todo>, id: u32, done: bool, after: Seq<Todo>) -> bool {
    exists|i: int| first_with_id(before, id, i) && after == #[trigger] with_done_at(before, i, done)
}

/// `s` without any task of id `id`.
pub open spec fn removed(s: Seq<Todo>, id: u32) -> Seq<Todo> {
    s.filter(id_is_not(id))
}

// ---------------------------------------------------------------------------
// The rules, on a task list that is already in memory.
// ---------------------------------------------------------------------------

/// The largest id of the list, or 0 when it is empty.
pub fn largest_id(todos: &[Todo]) -> (m: u32)
    ensures
        m == max_id(todos@),
{
    let mut m: u32 = 0;
    let mut i: usize = 0;
    while i < todos.len()
        invariant
            i <= todos@.len(),
            m == max_id(todos@.take(i as int)),
        decreases todos@.len() - i,
    {
        assert(todos@.take(i as int + 1).drop_last() =~= todos@.take(i as int));
        if todos[i].id > m {
            m = todos[i].id;
        }
        i = i + 1;
    }
    assert(todos@.take(i as int) =~= todos@);
    m
}

/// Appends a new open task with `text` and `priority`; its id is one more
/// than the largest id in the list. Fails when that id would not fit in a
/// `u32`.
pub fn append_todo(todos: Vec<Todo>, text: String, priority: Priority) -> (r: Result<Vec<Todo>, TodoError>)
    ensures
        match r {
            Ok(v) => max_id(todos@) < u32::MAX && v@ == added(todos@, text, priority),
            Err(e) => max_id(todos@) == u32::MAX && e is IdsExhausted,
        },
{
    let m = largest_id(todos.as_slice());
    if m == u32::MAX {
        return Err(TodoError::IdsExhausted);
    }
    let mut todos = todos;
    todos.push(Todo { id: m + 1, text, done: false, priority });
    Ok(todos)
}

/// Keeps the tasks that a listing with `filter` shows: the finished ones for
/// `"done"`, the open ones for `"pending"`, all of them for any other filter
/// or none. The order is kept.
pub fn filter_todos(todos: Vec<Todo>, filter: Option<&str>) -> (r: Vec<Todo>)
    ensures
        r@ == listed(todos@, opt_view(filter)),
{
    let want: bool;
    match filter {
        Some(f) => {
            if crate::text::same_text(f, "done") {
                want = true;
            } else if crate::text::same_text(f, "pending") {
                want = false;
            } else {
                return todos;
            }
        },
        None => {
            return todos;
        },
    }
    let ghost pred = done_is(want);
    let ghost all = todos@;
    let mut kept: Vec<Todo> = Vec::new();
    for t in it: todos.into_iter()
        invariant
            it.seq() == all,
            kept@ == all.take(it.index() as int).filter(pred),
            pred == done_is(want),
    {
        proof {
            reveal(Seq::filter);
            assert(all.take(it.index() as int + 1).drop_last() =~= all.take(it.index() as int));
        }
        if t.done == want {
            kept.push(t);
        }
    }
    proof {
        assert(all.take(all.len() as int) =~= all);
    }
    kept
}

/// Marks the first task with id `id` as finished (`done`) or open (`!done`).
/// Gives `None` when no task has that id.
pub fn set_done_in(todos: Vec<Todo>, id: u32, done: bool) -> (r: Option<Vec<Todo>>)
    ensures
        match r {
            Some(v) => has_id(todos@, id) && marked(todos@, id, done, v@),
            None => !has_id(todos@, id),
        },
{
    let mut i: usize = 0;
    while i < todos.len()
        invariant
            i <= todos@.len(),
            forall|j: int| 0 <= j < i ==> #[trigger] todos@[j].id != id,
        decreases todos@.len() - i,
    {
        if todos[i].id == id {
            let ghost before = todos@;
            let mut todos = todos;
            let mut t = todos.remove(i);
            t.done = done;
            todos.insert(i, t);
            proof {
                assert(first_with_id(before, id, i as int));
                assert(todos@ =~= with_done_at(before, i as int, done));
            }
            return Some(todos);
        }
        i = i + 1;
    }
    None
}

/// Removes every task with id `id`. Gives `None` when no task has that id.
pub fn remove_id(todos: Vec<Todo>, id: u32) -> (r: Option<Vec<Todo>>)
    ensures
        match r {
            Some(v) => has_id(todos@, id) && v@ == removed(todos@, id),
            None => !has_id(todos@, id),
        },
{
    let len_before = todos.len();
    let ghost pred = id_is_not(id);
    let ghost all = todos@;
    let mut kept: Vec<Todo> = Vec::new();
    for t in it: todos.into_iter()
        invariant
            it.seq() == all,
            len_before == all.len(),
            kept@ == all.take(it.index() as int).filter(pred),
            pred == id_is_not(id),
            kept@.len() <= it.index(),
            kept@.len() == it.index() <==> !has_id(all.take(it.index() as int), id),
    {
        let ghost k = it.index() as int;
        proof {
            reveal(Seq::filter);
            assert(all.take(k + 1).drop_last() =~= all.take(k));
            assert(all.take(k + 1)[k] == all[k]);
            if has_id(all.take(k), id) {
                let w = choose|w: int| 0 <= w < k && #[trigger] all.take(k)[w].id == id;
                assert(all.take(k + 1)[w].id == id);
            }
            if has_id(all.take(k + 1), id) && all[k].id != id {
                let w = choose|w: int| 0 <= w < k + 1 && #[trigger] all.take(k + 1)[w].id == id;
                assert(all.take(k)[w].id == id);
            }
        }
        if t.id != id {
            kept.push(t);
        }
    }
    proof {
        assert(all.take(all.len() as int) =~= all);
    }
    if kept.len() == len_before {
        return None;
    }
    Some(kept)
}

// ---------------------------------------------------------------------------
// The commands: read the stored list, apply a rule, store the outcome. The
// storage is the caller's, with no contract; each command states that it
// works on a list that its `load` gave, that the list it returns is the one
// its `save` accepted, and that an error is one that `load` or `save` gave
// (or, for a new task, that no id is left).
// ---------------------------------------------------------------------------

/// The outcome of adding a task to a storage: on success, the list that
/// `load` gave with the new task appended, stored by `save`; on failure, an
/// error of `load`, the lack of a free id, or an error of `save` on that
/// list.
pub open spec fn add_outcome<S: Storage + ?Sized>(
    storage: &S,
    text: String,
    priority: Priority,
    r: Result<Vec<Todo>, TodoError>,
) -> bool {
    match r {
        Ok(v) => exists|before: Seq<Todo>|
            #[trigger] can_load(storage, before) && max_id(before) < u32::MAX
                && v@ == added(before, text, priority) && can_save(storage, v@),
        Err(e) => {
            ||| can_fail_load(storage, e)
            ||| (e is IdsExhausted && exists|before: Seq<Todo>|
                #[trigger] can_load(storage, before) && max_id(before) == u32::MAX)
            ||| exists|before: Seq<Todo>|
                #[trigger] can_load(storage, before) && max_id(before) < u32::MAX
                    && can_fail_save(storage, added(before, text, priority), e)
        },
    }
}

/// Adds a new open task and stores the list (see [`add_outcome`]): the
/// list returned is the loaded list with the task appended, its id one past
/// the largest loaded id.
pub fn add_todo<S: Storage + ?Sized>(storage: &S, text: String, priority: Priority) -> (r: Result<Vec<Todo>, TodoError>)
    ensures
        add_outcome(storage, text, priority, r),
{
    let loaded = storage.load();
    let todos = match loaded {
        Ok(t) => t,
        Err(e) => {
            return Err(e);
        },
    };
    let ghost before = todos@;
    assert(can_load(storage, before));
    let todos = match append_todo(todos, text, priority) {
        Ok(t) => t,
        Err(e) => {
            return Err(e);
        },
    };
    let slice = todos.as_slice();
    let saved = storage.save(slice);
    match saved {
        Ok(()) => {
            assert(can_save(storage, todos@));
            Ok(todos)
        },
        Err(e) => {
            assert(can_fail_save(storage, added(before, text, priority), e));
            Err(e)
        },
    }
}

/// The outcome of listing a storage with `filter`: on success, what the
/// filter shows of the list that `load` gave; on failure, an error of
/// `load`.
pub open spec fn list_outcome<S: Storage + ?Sized>(
    storage: &S,
    filter: Option<Seq<char>>,
    r: Result<Vec<Todo>, TodoError>,
) -> bool {
    match r {
        Ok(v) => exists|before: Seq<Todo>| #[trigger] can_load(storage, before) && v@ == listed(before, filter),
        Err(e) => can_fail_load(storage, e),
    }
}

/// Reads the list and keeps what `filter` selects (see [`filter_todos`]).
pub fn list_todos<S: Storage + ?Sized>(storage: &S, filter: Option<&str>) -> (r: Result<Vec<Todo>, TodoError>)
    ensures
        list_outcome(storage, opt_view(filter), r),
{
    let loaded = storage.load();
    let todos = match loaded {
        Ok(t) => t,
        Err(e) => {
            return Err(e);
        },
    };
    let ghost before = todos@;
    assert(can_load(storage, before));
    let filtered = filter_todos(todos, filter);
    Ok(filtered)
}

/// The outcome of marking the first task with id `id` as `done` in a
/// storage: on `Some`, the list that `load` gave with that task marked,
/// stored by `save`; on `None`, a loaded list without that id, nothing
/// stored; on failure, an error of `load`, or of `save` on the marked list.
pub open spec fn mark_outcome<S: Storage + ?Sized>(
    storage: &S,
    id: u32,
    done: bool,
    r: Result<Option<Vec<Todo>>, TodoError>,
) -> bool {
    match r {
        Ok(Some(v)) => exists|before: Seq<Todo>|
            #[trigger] can_load(storage, before) && marked(before, id, done, v@) && can_save(storage, v@),
        Ok(None) => exists|before: Seq<Todo>| #[trigger] can_load(storage, before) && !has_id(before, id),
        Err(e) => {
            ||| can_fail_load(storage, e)
            ||| exists|before: Seq<Todo>, after: Seq<Todo>|
                #[trigger] can_load(storage, before) && marked(before, id, done, after)
                    && #[trigger] can_fail_save(storage, after, e)
        },
    }
}

fn set_done<S: Storage + ?Sized>(storage: &S, id: u32, done: bool) -> (r: Result<Option<Vec<Todo>>, TodoError>)
    ensures
        mark_outcome(storage, id, done, r),
{
    let loaded = storage.load();
    let todos = match loaded {
        Ok(t) => t,
        Err(e) => {
            return Err(e);
        },
    };
    let ghost before = todos@;
    assert(can_load(storage, before));
    match set_done_in(todos, id, done) {
        None => Ok(None),
        Some(todos) => {
            let slice = todos.as_slice();
            let saved = storage.save(slice);
            match saved {
                Ok(()) => {
                    assert(can_save(storage, todos@));
                    Ok(Some(todos))
                },
                Err(e) => {
                    assert(can_fail_save(storage, todos@, e));
                    Err(e)
                },
            }
        },
    }
}

/// Marks the first task with id `id` as finished and stores the list;
/// `Ok(None)` when the loaded list has no task with that id (see
/// [`mark_outcome`]).
pub fn mark_done<S: Storage + ?Sized>(storage: &S, id: u32) -> (r: Result<Option<Vec<Todo>>, TodoError>)
    ensures
        mark_outcome(storage, id, true, r),
{
    set_done(storage, id, true)
}

/// Marks the first task with id `id` as open again and stores the list;
/// `Ok(None)` when the loaded list has no task with that id (see
/// [`mark_outcome`]).
pub fn mark_undone<S: Storage + ?Sized>(storage: &S, id: u32) -> (r: Result<Option<Vec<Todo>>, TodoError>)
    ensures
        mark_outcome(storage, id, false, r),
{
    set_done(storage, id, false)
}

/// The outcome of removing id `id` from a storage: on `Some`, the list that
/// `load` gave without the tasks of that id, stored by `save`; on `None`, a
/// loaded list without that id, nothing stored; on failure, an error of
/// `load`, or of `save` on the shortened list.
pub open spec fn remove_outcome<S: Storage + ?Sized>(
    storage: &S,
    id: u32,
    r: Result<Option<Vec<Todo>>, TodoError>,
) -> bool {
    match r {
        Ok(Some(v)) => exists|before: Seq<Todo>|
            #[trigger] can_load(storage, before) && has_id(before, id) && v@ == removed(before, id)
                && can_save(storage, v@),
        Ok(None) => exists|before: Seq<Todo>| #[trigger] can_load(storage, before) && !has_id(before, id),
        Err(e) => {
            ||| can_fail_load(storage, e)
            ||| exists|before: Seq<Todo>|
                #[trigger] can_load(storage, before) && has_id(before, id)
                    && can_fail_save(storage, removed(before, id), e)
        },
    }
}

/// Removes every task with id `id` and stores the list; `Ok(None)`, with
/// nothing stored, when the loaded list has no task with that id (see
/// [`remove_outcome`]).
pub fn remove_todo<S: Storage + ?Sized>(storage: &S, id: u32) -> (r: Result<Option<Vec<Todo>>, TodoError>)
    ensures
        remove_outcome(storage, id, r),
{
    let loaded = storage.load();
    let todos = match loaded {
        Ok(t) => t,
        Err(e) => {
            return Err(e);
        },
    };
    let ghost before = todos@;
    assert(can_load(storage, before));
    match remove_id(todos, id) {
        None => Ok(None),
        Some(todos) => {
            let slice = todos.as_slice();
            let saved = storage.save(slice);
            match saved {
                Ok(()) => {
                    assert(can_save(storage, todos@));
                    Ok(Some(todos))
                },
                Err(e) => {
                    assert(can_fail_save(storage, removed(before, id), e));
                    Err(e)
                },
            }
        },
    }
}

} // verus!
