use vstd::prelude::*;
use crate::commands::{added, done_is, has_id, id_is_not, listed, marked, max_id, removed, with_done_at, first_with_id};
use crate::models::{Priority, Todo};
use crate::error::TodoError;
use crate::storage::{can_load, can_save, Storage};
use crate::commands::{add_outcome, list_outcome, mark_outcome, remove_outcome};
use crate::output::{border, done_count, framed, shows_row, painted_row, law_coloured_row_is_plain_row, box_width_of, larger, pad_line, plain_row, summary_text, title_text, widest_row};
use crate::text::{decimal, lemma_blanks_printable, lemma_decimal_printable, lemma_printable_concat, lemma_printable_has_no_esc, printable, repeated};
use crate::paint::{lemma_painted_keeps_width, lemma_shown_is_painted, lemma_used_codes_have_no_m, shown_with};
use crate::width::{width_from, escape_after, lemma_printable_width, lemma_width_concat, visible_width};

verus! {

/// No two tasks of `s` share an id.
pub open spec fn ids_distinct(s: Seq<Todo>) -> bool {
    forall|i: int, j: int| 0 <= i < s.len() && 0 <= j < s.len() && i != j ==> #[trigger] s[i].id != #[trigger] s[j].id
}

/// Every id in a list is at most the largest id of the list.
pub proof fn lemma_max_id_bounds(s: Seq<Todo>)
    ensures
        forall|i: int| 0 <= i < s.len() ==> #[trigger] s[i].id <= max_id(s),
        max_id(s) <= u32::MAX,
    decreases s.len(),
{
    if s.len() > 0 {
        lemma_max_id_bounds(s.drop_last());
        assert forall|i: int| 0 <= i < s.len() implies #[trigger] s[i].id <= max_id(s) by {
            if i < s.len() - 1 {
                assert(s[i] == s.drop_last()[i]);
            }
        }
    }
}

/// A new task gets an id larger than every id already in the list, the list
/// grows by exactly that one open task, and ids that were distinct stay
/// distinct.
pub proof fn law_add_gives_fresh_id(s: Seq<Todo>, text: String, priority: Priority)
    requires
        max_id(s) < u32::MAX,
    ensures
        added(s, text, priority).len() == s.len() + 1,
        added(s, text, priority).drop_last() == s,
        added(s, text, priority).last() == (Todo { id: (max_id(s) + 1) as u32, text, done: false, priority }),
        forall|i: int| 0 <= i < s.len() ==> #[trigger] s[i].id < added(s, text, priority).last().id,
        !has_id(s, added(s, text, priority).last().id),
        max_id(added(s, text, priority)) == max_id(s) + 1,
        ids_distinct(s) ==> ids_distinct(added(s, text, priority)),
{
    lemma_max_id_bounds(s);
    let a = added(s, text, priority);
    assert(a.drop_last() =~= s);
    assert forall|i: int, j: int| ids_distinct(s) && 0 <= i < a.len() && 0 <= j < a.len() && i != j
        implies #[trigger] a[i].id != #[trigger] a[j].id by {
        if i < s.len() && j < s.len() {
            assert(a[i] == s[i] && a[j] == s[j]);
        } else if i < s.len() {
            assert(a[i] == s[i]);
        } else {
            assert(a[j] == s[j]);
        }
    }
}

/// Marking a task touches only the `done` flag of the first task with that
/// id: the length, every other task, and every id stay as they were.
pub proof fn law_mark_touches_one_flag(before: Seq<Todo>, id: u32, done: bool, after: Seq<Todo>)
    requires
        marked(before, id, done, after),
    ensures
        after.len() == before.len(),
        exists|i: int| #![trigger after[i]]
            first_with_id(before, id, i) && after[i].done == done && after[i].id == before[i].id
                && after[i].text == before[i].text && after[i].priority == before[i].priority
                && forall|j: int| 0 <= j < before.len() && j != i ==> #[trigger] after[j] == before[j],
        forall|j: int| 0 <= j < before.len() ==> #[trigger] after[j].id == before[j].id,
        ids_distinct(before) ==> ids_distinct(after),
{
    let i = choose|i: int| first_with_id(before, id, i) && after == #[trigger] with_done_at(before, i, done);
    assert(after[i].done == done);
    assert forall|j: int| 0 <= j < before.len() implies #[trigger] after[j].id == before[j].id by {
        if j == i {
        } else {
            assert(after[j] == before[j]);
        }
    }
}

/// Marking a task finished and then open again gives back the list as it
/// was, when the task was open to begin with.
pub proof fn law_done_then_undone_restores(s: Seq<Todo>, id: u32, mid: Seq<Todo>, last: Seq<Todo>)
    requires
        marked(s, id, true, mid),
        marked(mid, id, false, last),
        forall|i: int| first_with_id(s, id, i) ==> !s[i].done,
    ensures
        last == s,
{
    let i = choose|i: int| first_with_id(s, id, i) && mid == #[trigger] with_done_at(s, i, true);
    let k = choose|k: int| first_with_id(mid, id, k) && last == #[trigger] with_done_at(mid, k, false);
    assert(mid[i].id == id);
    if k < i {
        assert(mid[k] == s[k]);
    } else if i < k {
        assert(mid[i].id == id);
    }
    assert(k == i);
    assert(!s[i].done);
    assert(last =~= s);
}

/// Marking the same id the same way twice changes nothing the second time.
pub proof fn law_mark_twice_changes_nothing(s: Seq<Todo>, id: u32, done: bool, once: Seq<Todo>, twice: Seq<Todo>)
    requires
        marked(s, id, done, once),
        marked(once, id, done, twice),
    ensures
        twice == once,
{
    let i = choose|i: int| first_with_id(s, id, i) && once == #[trigger] with_done_at(s, i, done);
    let k = choose|k: int| first_with_id(once, id, k) && twice == #[trigger] with_done_at(once, k, done);
    assert(once[i].id == id);
    if k < i {
        assert(once[k] == s[k]);
    }
    assert(k == i);
    assert(once[i].done == done);
    assert(twice =~= once);
}

/// After a removal no task has the removed id, and every task with another
/// id is still there; ids that were distinct stay so.
pub proof fn law_remove_drops_exactly_that_id(s: Seq<Todo>, id: u32)
    ensures
        !has_id(removed(s, id), id),
        forall|i: int| 0 <= i < s.len() && s[i].id != id ==> #[trigger] removed(s, id).contains(s[i]),
        removed(s, id).len() <= s.len(),
        has_id(s, id) ==> removed(s, id).len() < s.len(),
        ids_distinct(s) ==> ids_distinct(removed(s, id)),
    decreases s.len(),
{
    reveal(Seq::filter);
    broadcast use vstd::seq_lib::group_filter_ensures;
    if s.len() > 0 {
        let p = s.drop_last();
        law_remove_drops_exactly_that_id(p, id);
        let r = removed(s, id);
        let rp = removed(p, id);
        assert forall|i: int| 0 <= i < s.len() && s[i].id != id implies #[trigger] r.contains(s[i]) by {
            s.lemma_filter_contains(id_is_not(id), i);
        }
        if has_id(s, id) {
            let w = choose|w: int| 0 <= w < s.len() && #[trigger] s[w].id == id;
            if w < s.len() - 1 {
                assert(p[w].id == id);
            }
        }
        if ids_distinct(s) {
            assert(ids_distinct(p)) by {
                assert forall|i: int, j: int| 0 <= i < p.len() && 0 <= j < p.len() && i != j
                    implies #[trigger] p[i].id != #[trigger] p[j].id by {
                    assert(p[i] == s[i] && p[j] == s[j]);
                }
            }
            if s.last().id != id {
                assert(r == rp.push(s.last()));
                assert forall|i: int| 0 <= i < rp.len() implies #[trigger] rp[i].id != s.last().id by {
                    assert(rp.contains(rp[i]));
                    p.lemma_filter_contains_rev(id_is_not(id), rp[i]);
                    let w = choose|w: int| 0 <= w < p.len() && p[w] == rp[i];
                    assert(s[w] == p[w]);
                }
                assert forall|i: int, j: int| 0 <= i < r.len() && 0 <= j < r.len() && i != j
                    implies #[trigger] r[i].id != #[trigger] r[j].id by {
                    if i < rp.len() && j < rp.len() {
                        assert(r[i] == rp[i] && r[j] == rp[j]);
                    } else if i < rp.len() {
                        assert(r[i] == rp[i]);
                    } else {
                        assert(r[j] == rp[j]);
                    }
                }
            }
        }
    }
}

/// Removing the task that was just added, by its new id, gives the list
/// back as it was.
pub proof fn law_remove_fresh_undoes_add(s: Seq<Todo>, text: String, priority: Priority)
    requires
        max_id(s) < u32::MAX,
    ensures
        has_id(added(s, text, priority), added(s, text, priority).last().id),
        removed(added(s, text, priority), added(s, text, priority).last().id) == s,
{
    law_add_gives_fresh_id(s, text, priority);
    let a = added(s, text, priority);
    let id = a.last().id;
    assert(a[a.len() - 1].id == id);
    lemma_filter_keeps_all(s, id);
    reveal(Seq::filter);
    assert(a.drop_last() == s);
    assert(a.filter(id_is_not(id)) == s.filter(id_is_not(id)));
}

/// Filtering out an id that no task has keeps the whole list.
proof fn lemma_filter_keeps_all(s: Seq<Todo>, id: u32)
    requires
        !has_id(s, id),
    ensures
        s.filter(id_is_not(id)) == s,
    decreases s.len(),
{
    reveal(Seq::filter);
    if s.len() > 0 {
        let p = s.drop_last();
        assert(!has_id(p, id)) by {
            if has_id(p, id) {
                let w = choose|w: int| 0 <= w < p.len() && #[trigger] p[w].id == id;
                assert(s[w].id == id);
            }
        }
        lemma_filter_keeps_all(p, id);
        assert(s.last().id != id) by {
            assert(s[s.len() - 1].id == s.last().id);
        }
        assert(p.push(s.last()) =~= s);
    }
}

/// The finished and the open tasks together are the whole list: the two
/// listings split it, and each shows only tasks of its kind.
pub proof fn law_listings_split_the_list(s: Seq<Todo>)
    ensures
        listed(s, Some("done"@)).len() + listed(s, Some("pending"@)).len() == s.len(),
        forall|i: int| 0 <= i < listed(s, Some("done"@)).len() ==> #[trigger] listed(s, Some("done"@))[i].done,
        forall|i: int| 0 <= i < listed(s, Some("pending"@)).len() ==> !#[trigger] listed(s, Some("pending"@))[i].done,
        listed(s, None) == s,
{
    reveal_strlit("done");
    reveal_strlit("pending");
    broadcast use vstd::seq_lib::group_filter_ensures;
    assert("done"@ != "pending"@) by {
        assert("done"@.len() != "pending"@.len());
    }
    assert(listed(s, Some("done"@)) == s.filter(done_is(true)));
    assert(listed(s, Some("pending"@)) == s.filter(done_is(false)));
    lemma_split_counts(s);
}

proof fn lemma_split_counts(s: Seq<Todo>)
    ensures
        s.filter(done_is(true)).len() + s.filter(done_is(false)).len() == s.len(),
    decreases s.len(),
{
    reveal(Seq::filter);
    if s.len() > 0 {
        lemma_split_counts(s.drop_last());
    }
}

/// A padded line fills the width of the table exactly when its text takes
/// as many columns as the plain text it is padded by, fits, and leaves no
/// colour code open: blanks make up the difference.
pub proof fn law_padding_fills_width(text: Seq<char>, plain: Seq<char>, width: nat)
    requires
        !escape_after(text, false),
        visible_width(text) == visible_width(plain),
        visible_width(plain) + 2 <= width,
    ensures
        visible_width(pad_line(text, plain, width)) == width,
        !escape_after(pad_line(text, plain, width), false),
{
    reveal_strlit(" ");
    let n: nat = (width - visible_width(plain) - 2) as nat;
    let blanks = repeated(" "@, n);
    lemma_blanks_printable(n);
    lemma_printable_width(blanks);
    lemma_printable_width(" "@);
    lemma_width_concat(" "@, text, false);
    lemma_width_concat(" "@ + text, blanks, false);
    lemma_width_concat(" "@ + text + blanks, " "@, false);
}

proof fn lemma_summary_printable(done: nat, total: nat)
    ensures
        printable(summary_text(done, total)),
{
    reveal_strlit("/");
    reveal_strlit(" done");
    lemma_decimal_printable(done);
    lemma_decimal_printable(total);
    assert(printable("/"@));
    assert(printable(" done"@));
    lemma_printable_concat(decimal(done), "/"@);
    lemma_printable_concat(decimal(done) + "/"@, decimal(total));
    lemma_printable_concat(decimal(done) + "/"@ + decimal(total), " done"@);
}

proof fn lemma_widest_row_bounds(s: Seq<Todo>)
    ensures
        forall|i: int| 0 <= i < s.len() ==> visible_width(plain_row(#[trigger] s[i])) <= widest_row(s),
    decreases s.len(),
{
    if s.len() > 0 {
        lemma_widest_row_bounds(s.drop_last());
        assert forall|i: int| 0 <= i < s.len() implies visible_width(plain_row(#[trigger] s[i])) <= widest_row(s) by {
            if i < s.len() - 1 {
                assert(s[i] == s.drop_last()[i]);
            }
        }
    }
}

/// The table is aligned: the heading, the closing line, and every row whose
/// text leaves no colour code open, padded as they are shown without
/// colours, fill the inner width of the table exactly. (Only when that width
/// fits in a `usize`.)
pub proof fn law_table_lines_align(s: Seq<Todo>, done: nat)
    requires
        larger(larger(widest_row(s), 6), summary_text(done, s.len()).len()) + 2 <= usize::MAX,
    ensures
        visible_width(pad_line(title_text(), title_text(), box_width_of(s, done))) == box_width_of(s, done),
        visible_width(pad_line(summary_text(done, s.len()), summary_text(done, s.len()), box_width_of(s, done)))
            == box_width_of(s, done),
        forall|i: int| 0 <= i < s.len() && !escape_after(plain_row(s[i]), false) ==>
            visible_width(pad_line(plain_row(#[trigger] s[i]), plain_row(s[i]), box_width_of(s, done)))
                == box_width_of(s, done),
{
    let w = box_width_of(s, done);
    reveal_strlit("Tasks:");
    reveal_strlit("/");
    reveal_strlit(" done");
    assert(printable(title_text()));
    lemma_printable_width(title_text());
    law_padding_fills_width(title_text(), title_text(), w);
    lemma_summary_printable(done, s.len());
    lemma_printable_width(summary_text(done, s.len()));
    law_padding_fills_width(summary_text(done, s.len()), summary_text(done, s.len()), w);
    lemma_widest_row_bounds(s);
    assert forall|i: int| 0 <= i < s.len() && !escape_after(plain_row(s[i]), false) implies
        visible_width(pad_line(plain_row(#[trigger] s[i]), plain_row(s[i]), w)) == w by {
        law_padding_fills_width(plain_row(s[i]), plain_row(s[i]), w);
    }
}

/// The table is aligned as it is printed, in colour or not: every line of
/// it, borders, heading, closing line, and the row of every task whose text
/// holds no ESC character, takes the table's inner width plus the two
/// side columns. (Only when that width fits in a `usize`.)
pub proof fn law_printed_table_is_aligned(s: Seq<Todo>, heading: Seq<char>, i: int, line: Seq<char>)
    requires
        larger(larger(widest_row(s), 6), summary_text(done_count(s), s.len()).len()) + 2 <= usize::MAX,
        shown_with("1"@, title_text(), heading),
        0 <= i < s.len(),
        !s[i].text@.contains('\x1b'),
        shows_row(line, s[i], box_width_of(s, done_count(s))),
    ensures
        ({
            let w = box_width_of(s, done_count(s));
            let summary = summary_text(done_count(s), s.len());
            &&& visible_width("\n"@ + border("╔"@, "╗"@, w)) == w + 2
            &&& visible_width(framed(pad_line(heading, title_text(), w))) == w + 2
            &&& visible_width(border("╠"@, "╣"@, w)) == w + 2
            &&& visible_width(line) == w + 2
            &&& visible_width(framed(pad_line(summary, summary, w))) == w + 2
            &&& visible_width(border("╚"@, "╝"@, w) + "\n"@) == w + 2
        }),
{
    let w = box_width_of(s, done_count(s));
    let summary = summary_text(done_count(s), s.len());
    law_table_lines_align(s, done_count(s));
    law_borders_fill_width(w);
    reveal_strlit("Tasks:");
    assert(printable(title_text()));
    lemma_printable_has_no_esc(title_text());
    lemma_printable_width(title_text());
    lemma_used_codes_have_no_m();
    lemma_shown_is_painted("1"@, title_text(), heading);
    lemma_painted_keeps_width(title_text(), heading);
    law_padding_fills_width(heading, title_text(), w);
    law_framed_line_width(pad_line(heading, title_text(), w), w);
    lemma_summary_printable(done_count(s), s.len());
    lemma_printable_width(summary);
    law_padding_fills_width(summary, summary, w);
    law_framed_line_width(pad_line(summary, summary, w), w);
    lemma_widest_row_bounds(s);
    assert(visible_width(plain_row(s[i])) <= widest_row(s));
    let c = choose|c: Seq<char>| line == #[trigger] framed(pad_line(c, plain_row(s[i]), w)) && painted_row(c, s[i]);
    law_coloured_row_is_plain_row(c, s[i]);
    law_padding_fills_width(c, plain_row(s[i]), w);
    law_framed_line_width(pad_line(c, plain_row(s[i]), w), w);
}

/// A text of one-column characters repeated `n` times takes `n` columns.
proof fn lemma_repeated_width(piece: Seq<char>, n: nat)
    requires
        visible_width(piece) == 1,
        !escape_after(piece, false),
    ensures
        visible_width(repeated(piece, n)) == n,
        !escape_after(repeated(piece, n), false),
    decreases n,
{
    if n > 0 {
        lemma_repeated_width(piece, (n - 1) as nat);
        lemma_width_concat(repeated(piece, (n - 1) as nat), piece, false);
    } else {
        assert(repeated(piece, 0) =~= Seq::<char>::empty());
    }
}

/// A single box-drawing or printable ASCII character takes one column.
proof fn lemma_one_column(c: char)
    requires
        (0x20 <= c as u32 && (c as u32) < 0x7f) || (0x2500 <= c as u32 && (c as u32) < 0x2580),
    ensures
        visible_width(seq![c]) == 1,
        !escape_after(seq![c], false),
{
    reveal_with_fuel(width_from, 2);
    reveal_with_fuel(escape_after, 2);
    assert(seq![c].drop_first() =~= Seq::<char>::empty());
}

/// A border line of a table of inner width `w` takes `w + 2` columns, with
/// or without a line break before or after it.
pub proof fn law_borders_fill_width(w: nat)
    ensures
        visible_width("\n"@ + border("╔"@, "╗"@, w)) == w + 2,
        visible_width(border("╠"@, "╣"@, w)) == w + 2,
        visible_width(border("╚"@, "╝"@, w) + "\n"@) == w + 2,
{
    reveal_strlit("╔");
    reveal_strlit("╗");
    reveal_strlit("╠");
    reveal_strlit("╣");
    reveal_strlit("╚");
    reveal_strlit("╝");
    reveal_strlit("═");
    reveal_strlit("\n");
    assert("═"@ =~= seq!['═']);
    lemma_one_column('═');
    lemma_repeated_width("═"@, w);
    let bars = repeated("═"@, w);
    assert("╔"@ =~= seq!['╔'] && "╗"@ =~= seq!['╗'] && "╠"@ =~= seq!['╠']);
    assert("╣"@ =~= seq!['╣'] && "╚"@ =~= seq!['╚'] && "╝"@ =~= seq!['╝']);
    lemma_one_column('╔');
    lemma_one_column('╗');
    lemma_one_column('╠');
    lemma_one_column('╣');
    lemma_one_column('╚');
    lemma_one_column('╝');
    assert(visible_width("\n"@) == 0 && !escape_after("\n"@, false)) by {
        assert("\n"@ =~= seq!['\n']);
        reveal_with_fuel(width_from, 2);
        reveal_with_fuel(escape_after, 2);
        assert(seq!['\n'].drop_first() =~= Seq::<char>::empty());
    }
    lemma_width_concat("╔"@, bars, false);
    lemma_width_concat("╔"@ + bars, "╗"@, false);
    lemma_width_concat("\n"@, border("╔"@, "╗"@, w), false);
    lemma_width_concat("╠"@, bars, false);
    lemma_width_concat("╠"@ + bars, "╣"@, false);
    lemma_width_concat("╚"@, bars, false);
    lemma_width_concat("╚"@ + bars, "╝"@, false);
    lemma_width_concat(border("╚"@, "╝"@, w), "\n"@, false);
}

/// A line between the side bars whose inside takes `w` columns and leaves no
/// colour code open takes `w + 2` columns.
pub proof fn law_framed_line_width(inside: Seq<char>, w: nat)
    requires
        visible_width(inside) == w,
        !escape_after(inside, false),
    ensures
        visible_width(framed(inside)) == w + 2,
{
    reveal_strlit("║");
    assert("║"@ =~= seq!['║']);
    lemma_one_column('║');
    lemma_width_concat("║"@, inside, false);
    lemma_width_concat("║"@ + inside, "║"@, false);
}

// ---------------------------------------------------------------------------
// The commands, as they act on the list that their storage's `load` gave.
// ---------------------------------------------------------------------------

/// A successful add keeps every loaded task in place and appends exactly one
/// open task with the given text and priority, whose id is larger than every
/// loaded id; that list is the one `save` accepted.
pub proof fn law_add_keeps_loaded_tasks<S: Storage + ?Sized>(
    storage: &S,
    text: String,
    priority: Priority,
    r: Result<Vec<Todo>, TodoError>,
)
    requires
        add_outcome(storage, text, priority, r),
    ensures
        r matches Ok(w) ==> exists|before: Seq<Todo>| #[trigger] can_load(storage, before) && {
            &&& w@.len() == before.len() + 1
            &&& forall|i: int| 0 <= i < before.len() ==> #[trigger] w@[i] == before[i]
            &&& w@.last().text == text && !w@.last().done && w@.last().priority == priority
            &&& forall|i: int| 0 <= i < before.len() ==> #[trigger] before[i].id < w@.last().id
            &&& can_save(storage, w@)
        },
{
    if let Ok(w) = r {
        let v = w@;
        let before = choose|before: Seq<Todo>|
            #[trigger] can_load(storage, before) && max_id(before) < u32::MAX
                && v == added(before, text, priority) && can_save(storage, v);
        law_add_gives_fresh_id(before, text, priority);
        assert forall|i: int| 0 <= i < before.len() implies #[trigger] v[i] == before[i] by {
            assert(v.drop_last()[i] == v[i]);
        }
    }
}

/// An unfiltered listing shows the loaded list as it is; the `"done"`
/// listing shows only finished tasks and every finished task of it, the
/// `"pending"` listing only open tasks and every open one.
pub proof fn law_listing_shows_loaded_tasks<S: Storage + ?Sized>(
    storage: &S,
    filter: Option<Seq<char>>,
    r: Result<Vec<Todo>, TodoError>,
)
    requires
        list_outcome(storage, filter, r),
    ensures
        r matches Ok(w) ==> exists|before: Seq<Todo>| #[trigger] can_load(storage, before) && {
            let v = w@;
            &&& filter is None ==> v == before
            &&& filter == Some("done"@) ==> (forall|i: int| 0 <= i < v.len() ==> #[trigger] v[i].done)
                && (forall|i: int| 0 <= i < before.len() && before[i].done ==> #[trigger] v.contains(before[i]))
            &&& filter == Some("pending"@) ==> (forall|i: int| 0 <= i < v.len() ==> !#[trigger] v[i].done)
                && (forall|i: int| 0 <= i < before.len() && !before[i].done ==> #[trigger] v.contains(before[i]))
        },
{
    broadcast use vstd::seq_lib::group_filter_ensures;
    if r is Ok {
        let v = r->Ok_0@;
        let before = choose|before: Seq<Todo>| #[trigger] can_load(storage, before) && v == listed(before, filter);
        reveal_strlit("done");
        reveal_strlit("pending");
        assert("done"@ != "pending"@) by {
            assert("done"@.len() != "pending"@.len());
        }
        assert forall|i: int| 0 <= i < before.len() && before[i].done implies #[trigger] before.filter(done_is(true)).contains(before[i]) by {
            before.lemma_filter_contains(done_is(true), i);
        }
        assert forall|i: int| 0 <= i < before.len() && !before[i].done implies #[trigger] before.filter(done_is(false)).contains(before[i]) by {
            before.lemma_filter_contains(done_is(false), i);
        }
    }
}

/// A successful marking changes only the `done` flag of the first loaded
/// task with that id, to the requested value; every other task, and the
/// length, stay as loaded; that list is the one `save` accepted. When
/// nothing is marked, the loaded list has no task with that id.
pub proof fn law_mark_changes_one_flag<S: Storage + ?Sized>(
    storage: &S,
    id: u32,
    done: bool,
    r: Result<Option<Vec<Todo>>, TodoError>,
)
    requires
        mark_outcome(storage, id, done, r),
    ensures
        r matches Ok(Some(w)) ==> exists|before: Seq<Todo>| #[trigger] can_load(storage, before) && {
            &&& w@.len() == before.len()
            &&& exists|i: int| #![trigger w@[i]]
                0 <= i < before.len() && before[i].id == id && w@[i].done == done
                && w@[i].id == id && w@[i].text == before[i].text && w@[i].priority == before[i].priority
                && (forall|j: int| 0 <= j < i ==> #[trigger] before[j].id != id)
                && (forall|j: int| 0 <= j < before.len() && j != i ==> #[trigger] w@[j] == before[j])
            &&& can_save(storage, w@)
        },
        r matches Ok(None) ==> exists|before: Seq<Todo>| #[trigger] can_load(storage, before)
            && forall|i: int| 0 <= i < before.len() ==> #[trigger] before[i].id != id,
{
    if let Ok(Some(w)) = r {
        let before = choose|before: Seq<Todo>|
            #[trigger] can_load(storage, before) && marked(before, id, done, w@) && can_save(storage, w@);
        law_mark_touches_one_flag(before, id, done, w@);
    }
}

/// A successful removal keeps every loaded task of another id and keeps no
/// task of that id, and the list gets shorter; that list is the one `save`
/// accepted.
pub proof fn law_remove_keeps_other_tasks<S: Storage + ?Sized>(
    storage: &S,
    id: u32,
    r: Result<Option<Vec<Todo>>, TodoError>,
)
    requires
        remove_outcome(storage, id, r),
    ensures
        r matches Ok(Some(w)) ==> exists|before: Seq<Todo>| #[trigger] can_load(storage, before) && {
            &&& forall|i: int| 0 <= i < before.len() && before[i].id != id ==> #[trigger] w@.contains(before[i])
            &&& forall|j: int| 0 <= j < w@.len() ==> #[trigger] w@[j].id != id
            &&& w@.len() < before.len()
            &&& can_save(storage, w@)
        },
{
    if let Ok(Some(w)) = r {
        let before = choose|before: Seq<Todo>|
            #[trigger] can_load(storage, before) && has_id(before, id) && w@ == removed(before, id)
                && can_save(storage, w@);
        law_remove_drops_exactly_that_id(before, id);
        assert forall|j: int| 0 <= j < w@.len() implies #[trigger] w@[j].id != id by {
            if w@[j].id == id {
                assert(has_id(removed(before, id), id));
            }
        }
    }
}

/// The finished count of a table counts the tasks whose `done` flag is set:
/// none for no tasks, and one more for each finished task added.
pub proof fn law_done_count_counts_finished(s: Seq<Todo>, t: Todo)
    ensures
        done_count(Seq::<Todo>::empty()) == 0,
        done_count(s.push(t)) == done_count(s) + if t.done { 1int } else { 0int },
        done_count(s) <= s.len(),
{
    reveal(Seq::filter);
    broadcast use vstd::seq_lib::group_filter_ensures;
    assert(s.push(t).drop_last() =~= s);
    assert(Seq::<Todo>::empty().filter(done_is(true)) =~= Seq::<Todo>::empty());
}

} // verus!
