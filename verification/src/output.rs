use vstd::prelude::*;
use crate::commands::done_is;
use crate::models::{Priority, Todo};
use crate::text::{decimal, decimal_text, lemma_blanks_printable, lemma_decimal_printable, lemma_printable_concat, lemma_printable_has_no_esc, printable, repeat_text, repeated};
use crate::paint::{bold, green_bold, holds_reset, lemma_no_esc_no_reset, lemma_painted_codes_removed, lemma_painted_keeps_width, lemma_shown_is_painted, lemma_used_codes_have_no_m, normal, painted_as, shown_with, red, red_bold, strikethrough_dimmed, white, yellow};
use crate::width::{escape_after, lemma_codes_removed_concat, lemma_no_codes, lemma_width_concat, visible_len, visible_width, without_codes};

verus! {

// ---------------------------------------------------------------------------
// One row of the table.
// ---------------------------------------------------------------------------

/// The box in front of a task: `[X]` when finished, `[ ]` when open.
pub open spec fn status_mark(done: bool) -> Seq<char> {
    if done {
        "[X]"@
    } else {
        "[ ]"@
    }
}

/// The mark of a priority: `[!]` for high, `[-]` for medium, blanks for low.
pub open spec fn priority_mark(p: Priority) -> Seq<char> {
    match p {
        Priority::High => "[!]"@,
        Priority::Medium => "[-]"@,
        Priority::Low => "   "@,
    }
}

/// A task id right-aligned in three columns, as `format!("{:3}", id)`
/// writes it.
pub open spec fn id_field(id: u32) -> Seq<char> {
    let d = decimal(id as nat);
    if d.len() < 3 {
        repeated(" "@, (3 - d.len()) as nat) + d
    } else {
        d
    }
}

/// A table row: the status box, the priority mark, the id and the text.
pub open spec fn row_line(status: Seq<char>, mark: Seq<char>, id: u32, text: Seq<char>) -> Seq<char> {
    status + " "@ + mark + " "@ + id_field(id) + ". "@ + text
}

/// The row of a task, without colours.
pub open spec fn plain_row(t: Todo) -> Seq<char> {
    row_line(status_mark(t.done), priority_mark(t.priority), t.id, t.text@)
}

/// A task id right-aligned in three columns.
fn format_id(id: u32) -> (r: String)
    ensures
        r@ == id_field(id),
{
    let digits = decimal_text(id as u64);
    let n = digits.as_str().unicode_len();
    if n < 3 {
        let mut r = repeat_text(" ", 3 - n);
        r.append(digits.as_str());
        r
    } else {
        digits
    }
}

/// A table row from its parts.
fn format_row(status: &str, mark: &str, id: u32, text: &str) -> (r: String)
    ensures
        r@ == row_line(status@, mark@, id, text@),
{
    let mut r = String::from_str(status);
    r.append(" ");
    r.append(mark);
    r.append(" ");
    let id_text = format_id(id);
    r.append(id_text.as_str());
    r.append(". ");
    r.append(text);
    proof {
        reveal_strlit(" ");
        reveal_strlit(". ");
        assert(r@ =~= row_line(status@, mark@, id, text@));
    }
    r
}

/// The row of one task, once without and once with colours.
pub struct Row {
    /// The row as plain text; its width decides the width of the table.
    pub plain: String,
    /// The row as it is printed, with colour codes where the terminal takes
    /// them.
    pub colored: String,
}

/// Parts of the same width, each leaving no escape sequence open, make
/// wholes of the same width that leave none open.
proof fn lemma_same_width_concat(a1: Seq<char>, b1: Seq<char>, a2: Seq<char>, b2: Seq<char>)
    requires
        visible_width(a1) == visible_width(b1),
        visible_width(a2) == visible_width(b2),
        !escape_after(a1, false),
        !escape_after(b1, false),
        !escape_after(a2, false),
        !escape_after(b2, false),
    ensures
        visible_width(a1 + a2) == visible_width(b1 + b2),
        !escape_after(a1 + a2, false),
        !escape_after(b1 + b2, false),
{
    lemma_width_concat(a1, a2, false);
    lemma_width_concat(b1, b2, false);
}

/// A row in colour is as wide as the plain row, when each coloured part is
/// its plain part, painted.
proof fn lemma_row_width(s: Seq<char>, m: Seq<char>, t: Seq<char>, status: Seq<char>, mark: Seq<char>, text: Seq<char>, id: u32)
    requires
        painted_as(status, s),
        painted_as(mark, m),
        painted_as(text, t),
        !status.contains('\x1b'),
        !mark.contains('\x1b'),
        !text.contains('\x1b'),
        !" "@.contains('\x1b'),
        !". "@.contains('\x1b'),
        !id_field(id).contains('\x1b'),
    ensures
        visible_width(row_line(s, m, id, t)) == visible_width(row_line(status, mark, id, text)),
        !escape_after(row_line(s, m, id, t), false),
        !escape_after(row_line(status, mark, id, text), false),
        without_codes(row_line(s, m, id, t)) == row_line(status, mark, id, text),
{
    lemma_painted_codes_removed(status, s);
    lemma_painted_codes_removed(mark, m);
    lemma_painted_codes_removed(text, t);
    lemma_no_codes(" "@);
    lemma_no_codes(". "@);
    lemma_no_codes(id_field(id));
    lemma_painted_keeps_width(status, s);
    lemma_painted_keeps_width(mark, m);
    lemma_painted_keeps_width(text, t);
    assert(painted_as(" "@, " "@));
    lemma_painted_keeps_width(" "@, " "@);
    assert(painted_as(". "@, ". "@));
    lemma_painted_keeps_width(". "@, ". "@);
    assert(painted_as(id_field(id), id_field(id)));
    lemma_painted_keeps_width(id_field(id), id_field(id));
    lemma_same_width_concat(s, status, " "@, " "@);
    lemma_same_width_concat(s + " "@, status + " "@, m, mark);
    lemma_same_width_concat(s + " "@ + m, status + " "@ + mark, " "@, " "@);
    lemma_same_width_concat(s + " "@ + m + " "@, status + " "@ + mark + " "@, id_field(id), id_field(id));
    lemma_same_width_concat(s + " "@ + m + " "@ + id_field(id), status + " "@ + mark + " "@ + id_field(id), ". "@, ". "@);
    lemma_same_width_concat(
        s + " "@ + m + " "@ + id_field(id) + ". "@,
        status + " "@ + mark + " "@ + id_field(id) + ". "@,
        t,
        text,
    );
    lemma_codes_removed_concat(s, " "@, false);
    lemma_codes_removed_concat(s + " "@, m, false);
    lemma_codes_removed_concat(s + " "@ + m, " "@, false);
    lemma_codes_removed_concat(s + " "@ + m + " "@, id_field(id), false);
    lemma_codes_removed_concat(s + " "@ + m + " "@ + id_field(id), ". "@, false);
    lemma_codes_removed_concat(s + " "@ + m + " "@ + id_field(id) + ". "@, t, false);
}

/// The colour codes of the status box: bold green when finished, white
/// when open.
pub open spec fn status_codes(done: bool) -> Seq<char> {
    if done {
        "1;32"@
    } else {
        "37"@
    }
}

/// `m` is the priority mark of `p` as printed: bold red for high, yellow
/// for medium, unchanged blanks for low.
pub open spec fn mark_shown(p: Priority, m: Seq<char>) -> bool {
    match p {
        Priority::High => shown_with("1;31"@, "[!]"@, m),
        Priority::Medium => shown_with("33"@, "[-]"@, m),
        Priority::Low => m == "   "@,
    }
}

/// `x` is the text of `t` as printed: struck through and dimmed when the
/// task is finished (known so when the text holds no reset code), unchanged
/// when it is open.
pub open spec fn text_shown(t: Todo, x: Seq<char>) -> bool {
    if t.done {
        !holds_reset(t.text@) ==> shown_with("2;9"@, t.text@, x)
    } else {
        x == t.text@
    }
}

/// `c` is the row of task `t` as printed: its status box, priority mark and
/// text each in its colour (or all plain when colours are off), with the id
/// and separators as in the plain row.
pub open spec fn painted_row(c: Seq<char>, t: Todo) -> bool {
    exists|s: Seq<char>, m: Seq<char>, x: Seq<char>|
        c == #[trigger] row_line(s, m, t.id, x)
        && shown_with(status_codes(t.done), status_mark(t.done), s)
        && mark_shown(t.priority, m)
        && text_shown(t, x)
}

/// A coloured row of a task whose text holds no ESC character shows the
/// plain row once its colour codes are removed, takes as many columns, and
/// leaves no escape sequence open.
pub proof fn law_coloured_row_is_plain_row(c: Seq<char>, t: Todo)
    requires
        painted_row(c, t),
        !t.text@.contains('\x1b'),
    ensures
        without_codes(c) == plain_row(t),
        visible_width(c) == visible_width(plain_row(t)),
        !escape_after(c, false),
        !escape_after(plain_row(t), false),
{
    let (s, m, x) = choose|s: Seq<char>, m: Seq<char>, x: Seq<char>|
        c == #[trigger] row_line(s, m, t.id, x)
        && shown_with(status_codes(t.done), status_mark(t.done), s)
        && mark_shown(t.priority, m)
        && text_shown(t, x);
    lemma_fixed_parts_plain(t.done, t.priority, t.id);
    lemma_used_codes_have_no_m();
    lemma_shown_is_painted(status_codes(t.done), status_mark(t.done), s);
    match t.priority {
        Priority::High => lemma_shown_is_painted("1;31"@, "[!]"@, m),
        Priority::Medium => lemma_shown_is_painted("33"@, "[-]"@, m),
        Priority::Low => {},
    }
    if t.done {
        lemma_no_esc_no_reset(t.text@);
        lemma_shown_is_painted("2;9"@, t.text@, x);
    }
    lemma_row_width(s, m, x, status_mark(t.done), priority_mark(t.priority), t.text@, t.id);
}

proof fn lemma_id_field_printable(id: u32)
    ensures
        printable(id_field(id)),
        !id_field(id).contains('\x1b'),
{
    lemma_decimal_printable(id as nat);
    let d = decimal(id as nat);
    if d.len() < 3 {
        lemma_blanks_printable((3 - d.len()) as nat);
        lemma_printable_concat(repeated(" "@, (3 - d.len()) as nat), d);
    }
    lemma_printable_has_no_esc(id_field(id));
}

proof fn lemma_not_found_text_plain(id: u32)
    ensures
        !not_found_text(id).contains('\x1b'),
{
    reveal_strlit("Todo with ID ");
    reveal_strlit(" not found");
    lemma_decimal_printable(id as nat);
    assert(printable("Todo with ID "@));
    assert(printable(" not found"@));
    lemma_printable_concat("Todo with ID "@, decimal(id as nat));
    lemma_printable_concat("Todo with ID "@ + decimal(id as nat), " not found"@);
    lemma_printable_has_no_esc(not_found_text(id));
}

/// No mark, blank or digit is an ESC character.
proof fn lemma_fixed_parts_plain(done: bool, p: Priority, id: u32)
    ensures
        !status_mark(done).contains('\x1b'),
        !priority_mark(p).contains('\x1b'),
        !" "@.contains('\x1b'),
        !". "@.contains('\x1b'),
        !id_field(id).contains('\x1b'),
{
    reveal_strlit("[X]");
    reveal_strlit("[ ]");
    reveal_strlit("[!]");
    reveal_strlit("[-]");
    reveal_strlit("   ");
    reveal_strlit(" ");
    reveal_strlit(". ");
    lemma_id_field_printable(id);
}

impl Row {
    /// The row of `todo`. The plain text is exact. The coloured text has the
    /// same layout, each part in its colour (see [`painted_row`]); when the
    /// task's text
    /// holds no ESC character it shows the plain text once the colour codes
    /// are removed, and is as wide on screen.
    pub fn from_todo(todo: &Todo) -> (r: Row)
        ensures
            r.plain@ == plain_row(*todo),
            painted_row(r.colored@, *todo),
            !todo.text@.contains('\x1b') ==> {
                &&& without_codes(r.colored@) == r.plain@
                &&& visible_width(r.colored@) == visible_width(r.plain@)
                &&& !escape_after(r.colored@, false)
                &&& !escape_after(r.plain@, false)
            },
    {
        let status_plain = if todo.done { "[X]" } else { "[ ]" };
        let priority_plain = match todo.priority {
            Priority::High => "[!]",
            Priority::Medium => "[-]",
            Priority::Low => "   ",
        };
        proof {
            lemma_fixed_parts_plain(todo.done, todo.priority, todo.id);
            lemma_no_esc_no_reset(status_plain@);
            lemma_no_esc_no_reset(priority_plain@);
        }
        let status_colored = if todo.done {
            green_bold("[X]")
        } else {
            white("[ ]")
        };
        let priority_colored = match todo.priority {
            Priority::High => red_bold("[!]"),
            Priority::Medium => yellow("[-]"),
            Priority::Low => normal("   "),
        };
        let text_colored = if todo.done {
            strikethrough_dimmed(todo.text.as_str())
        } else {
            normal(todo.text.as_str())
        };
        let plain = format_row(status_plain, priority_plain, todo.id, todo.text.as_str());
        let colored = format_row(status_colored.as_str(), priority_colored.as_str(), todo.id, text_colored.as_str());
        proof {
            assert(colored@ == row_line(status_colored@, priority_colored@, todo.id, text_colored@));
            assert(painted_row(colored@, *todo));
            if !todo.text@.contains('\x1b') {
                law_coloured_row_is_plain_row(colored@, *todo);
            }
        }
        Row { plain, colored }
    }
}

// ---------------------------------------------------------------------------
// The table.
// ---------------------------------------------------------------------------

/// `n`, or `usize::MAX` when `n` does not fit in a `usize`.
pub open spec fn capped(n: nat) -> nat {
    if n > usize::MAX {
        usize::MAX as nat
    } else {
        n
    }
}

/// The larger of two numbers.
pub open spec fn larger(a: nat, b: nat) -> nat {
    if a >= b {
        a
    } else {
        b
    }
}

/// The widest plain row among the tasks of `s`, 0 when there are none.
pub open spec fn widest_row(s: Seq<Todo>) -> nat
    decreases s.len(),
{
    if s.len() == 0 {
        0
    } else {
        larger(widest_row(s.drop_last()), visible_width(plain_row(s.last())))
    }
}

/// The closing line of the table: how many of the tasks are finished.
pub open spec fn summary_text(done: nat, total: nat) -> Seq<char> {
    decimal(done) + "/"@ + decimal(total) + " done"@
}

/// The heading of the table.
pub open spec fn title_text() -> Seq<char> {
    "Tasks:"@
}

/// The narrowest inner width a table has, as the program's documentation
/// shows it.
pub const MIN_TABLE_WIDTH: usize = 40;

/// The inner width of the table: two more than the widest of the rows, the
/// heading and the closing line, and at least `MIN_TABLE_WIDTH`.
pub open spec fn box_width_of(s: Seq<Todo>, done: nat) -> nat {
    larger(capped(larger(larger(widest_row(s), 6), summary_text(done, s.len()).len()) + 2), MIN_TABLE_WIDTH as nat)
}

/// How many tasks of `s` are finished.
pub open spec fn done_count(s: Seq<Todo>) -> nat {
    s.filter(done_is(true)).len()
}

/// A line of the table: a space, the text, blanks up to the width of the
/// table (the width is measured on `plain`), and a space.
pub open spec fn pad_line(text: Seq<char>, plain: Seq<char>, width: nat) -> Seq<char> {
    let v = visible_width(plain);
    let blanks: nat = if width >= v + 2 { (width - v - 2) as nat } else { 0 };
    " "@ + text + repeated(" "@, blanks) + " "@
}

/// A border line: `left`, `width` double bars, `right`.
pub open spec fn border(left: Seq<char>, right: Seq<char>, width: nat) -> Seq<char> {
    left + repeated("═"@, width) + right
}

/// The closing line of the table for `done` finished tasks out of `total`.
pub fn summary_line(done: usize, total: usize) -> (r: String)
    ensures
        r@ == summary_text(done as nat, total as nat),
{
    let mut r = decimal_text(done as u64);
    r.append("/");
    let t = decimal_text(total as u64);
    r.append(t.as_str());
    r.append(" done");
    proof {
        assert(r@ =~= summary_text(done as nat, total as nat));
    }
    r
}

/// How many of the tasks are finished.
pub fn count_done(todos: &[Todo]) -> (n: usize)
    ensures
        n == done_count(todos@),
{
    let mut n: usize = 0;
    let mut i: usize = 0;
    while i < todos.len()
        invariant
            i <= todos@.len(),
            n == todos@.take(i as int).filter(done_is(true)).len(),
            n <= i,
        decreases todos@.len() - i,
    {
        proof {
            reveal(Seq::filter);
            assert(todos@.take(i as int + 1).drop_last() =~= todos@.take(i as int));
        }
        if todos[i].done {
            n = n + 1;
        }
        i = i + 1;
    }
    assert(todos@.take(i as int) =~= todos@);
    n
}

/// The inner width of the table of `todos`, of which `done_count` are
/// finished: two more than the widest of the rows, the heading and the
/// closing line, and at least `MIN_TABLE_WIDTH` columns.
pub fn box_width(todos: &[Todo], done_count: usize) -> (w: usize)
    ensures
        w == box_width_of(todos@, done_count as nat),
{
    let summary = summary_line(done_count, todos.len());
    let summary_len = summary.as_str().unicode_len();
    let mut widest: usize = 0;
    let mut i: usize = 0;
    while i < todos.len()
        invariant
            i <= todos@.len(),
            widest == widest_row(todos@.take(i as int)),
        decreases todos@.len() - i,
    {
        proof {
            assert(todos@.take(i as int + 1).drop_last() =~= todos@.take(i as int));
        }
        let row = Row::from_todo(&todos[i]);
        let v = visible_len(row.plain.as_str());
        if v > widest {
            widest = v;
        }
        i = i + 1;
    }
    assert(todos@.take(i as int) =~= todos@);
    let title_len: usize = 6;
    let mut m = if widest >= title_len { widest } else { title_len };
    if summary_len > m {
        m = summary_len;
    }
    let w = m.saturating_add(2);
    if w < MIN_TABLE_WIDTH {
        MIN_TABLE_WIDTH
    } else {
        w
    }
}

/// A line of the table: a space, `s`, blanks up to `width` (measured on
/// `plain`, the text of `s` without colours), and a space.
pub fn pad(s: &str, plain: &str, width: usize) -> (r: String)
    ensures
        r@ == pad_line(s@, plain@, width as nat),
{
    let spaces = width.saturating_sub(visible_len(plain));
    let mut r = String::from_str(" ");
    r.append(s);
    let blanks = repeat_text(" ", spaces.saturating_sub(2));
    r.append(blanks.as_str());
    r.append(" ");
    proof {
        assert(r@ =~= pad_line(s@, plain@, width as nat));
    }
    r
}

fn border_line(left: &str, right: &str, width: usize) -> (r: String)
    ensures
        r@ == border(left@, right@, width as nat),
{
    let mut r = String::from_str(left);
    let bars = repeat_text("═", width);
    r.append(bars.as_str());
    r.append(right);
    proof {
        assert(r@ =~= border(left@, right@, width as nat));
    }
    r
}

/// The top border of a table of inner width `width`.
pub fn border_top(width: usize) -> (r: String)
    ensures
        r@ == border("╔"@, "╗"@, width as nat),
{
    border_line("╔", "╗", width)
}

/// The border between the parts of a table of inner width `width`.
pub fn border_mid(width: usize) -> (r: String)
    ensures
        r@ == border("╠"@, "╣"@, width as nat),
{
    border_line("╠", "╣", width)
}

/// The bottom border of a table of inner width `width`.
pub fn border_bottom(width: usize) -> (r: String)
    ensures
        r@ == border("╚"@, "╝"@, width as nat),
{
    border_line("╚", "╝", width)
}

/// A side of the table around a line: `║` + `line` + `║`.
pub open spec fn framed(line: Seq<char>) -> Seq<char> {
    "║"@ + line + "║"@
}

/// `line` is the table line of task `t` in a table of inner width `w`: its
/// row, painted (see [`painted_row`]), padded by the width of its plain row,
/// between the side bars.
pub open spec fn shows_row(line: Seq<char>, t: Todo, w: nat) -> bool {
    exists|c: Seq<char>| line == #[trigger] framed(pad_line(c, plain_row(t), w)) && painted_row(c, t)
}

/// What is shown when there are no tasks.
pub open spec fn empty_list_message() -> Seq<char> {
    "Todos not found. Add new todo: todo add <task>"@
}

fn framed_line(line: &str) -> (r: String)
    ensures
        r@ == framed(line@),
{
    let mut r = String::from_str("║");
    r.append(line);
    r.append("║");
    r
}

/// The lines of a framed message box around `msg`, each as `println!` gets
/// it: a blank line and the top border, the message in its colour between
/// two blanks on each side, the bottom border and a blank line. The box is
/// four columns wider than the message.
pub fn box_message_lines(msg: &str) -> (lines: Vec<String>)
    ensures
        lines@.len() == 3,
        lines@[0]@ == "\n"@ + border("╔"@, "╗"@, capped(visible_width(msg@) + 4)),
        exists|m: Seq<char>| lines@[1]@ == #[trigger] framed("  "@ + m + "  "@) && (!holds_reset(msg@) ==> shown_with("33"@, msg@, m)),
        lines@[2]@ == border("╚"@, "╝"@, capped(visible_width(msg@) + 4)) + "\n"@,
{
    let width = visible_len(msg).saturating_add(4);
    let mut lines: Vec<String> = Vec::new();
    let mut first = String::from_str("\n");
    let top = border_top(width);
    first.append(top.as_str());
    lines.push(first);
    let shown = yellow(msg);
    let mut inner = String::from_str("  ");
    inner.append(shown.as_str());
    inner.append("  ");
    lines.push(framed_line(inner.as_str()));
    let mut last = border_bottom(width);
    last.append("\n");
    lines.push(last);
    lines
}

/// The lines that show `todos`, each as `println!` gets it. With no tasks,
/// a message box that says so. Otherwise a table whose inner width is its
/// widest line plus two, and at least `MIN_TABLE_WIDTH`: a blank line and the top border, the heading, a border,
/// one row per task in order, a border, how many tasks are finished, and
/// the bottom border with a blank line. The heading and the rows are written
/// in their colours and padded by their plain width.
pub fn render_todos(todos: &[Todo]) -> (lines: Vec<String>)
    ensures
        todos@.len() == 0 ==> {
            let w = capped(visible_width(empty_list_message()) + 4);
            &&& lines@.len() == 3
            &&& lines@[0]@ == "\n"@ + border("╔"@, "╗"@, w)
            &&& exists|m: Seq<char>| lines@[1]@ == #[trigger] framed("  "@ + m + "  "@) && shown_with("33"@, empty_list_message(), m)
            &&& lines@[2]@ == border("╚"@, "╝"@, w) + "\n"@
        },
        todos@.len() > 0 ==> {
            let n = todos@.len() as int;
            let w = box_width_of(todos@, done_count(todos@));
            &&& lines@.len() == n + 6
            &&& lines@[0]@ == "\n"@ + border("╔"@, "╗"@, w)
            &&& exists|t: Seq<char>| lines@[1]@ == #[trigger] framed(pad_line(t, title_text(), w)) && shown_with("1"@, title_text(), t)
            &&& lines@[2]@ == border("╠"@, "╣"@, w)
            &&& forall|i: int| 0 <= i < n ==> #[trigger] shows_row(lines@[i + 3]@, todos@[i], w)
            &&& lines@[n + 3]@ == border("╠"@, "╣"@, w)
            &&& lines@[n + 4]@ == framed(pad_line(summary_text(done_count(todos@), n as nat), summary_text(done_count(todos@), n as nat), w))
            &&& lines@[n + 5]@ == border("╚"@, "╝"@, w) + "\n"@
        },
{
    if todos.len() == 0 {
        let msg = "Todos not found. Add new todo: todo add <task>";
        proof {
            reveal_strlit("Todos not found. Add new todo: todo add <task>");
            assert(!msg@.contains('\x1b'));
            lemma_no_esc_no_reset(msg@);
        }
        return box_message_lines(msg);
    }
    let done = count_done(todos);
    let width = box_width(todos, done);
    let summary = summary_line(done, todos.len());
    let title = bold("Tasks:");
    proof {
        reveal_strlit("Tasks:");
        assert(!"Tasks:"@.contains('\x1b'));
        lemma_no_esc_no_reset("Tasks:"@);
    }
    let ghost w = box_width_of(todos@, done_count(todos@));
    let mut lines: Vec<String> = Vec::new();
    let mut first = String::from_str("\n");
    let top = border_top(width);
    first.append(top.as_str());
    lines.push(first);
    let heading = pad(title.as_str(), "Tasks:", width);
    lines.push(framed_line(heading.as_str()));
    lines.push(border_mid(width));
    let ghost mut shown: Seq<Seq<char>> = Seq::empty();
    let mut i: usize = 0;
    while i < todos.len()
        invariant
            i <= todos@.len(),
            width == w,
            shown.len() == i,
            lines@.len() == i + 3,
            lines@[0]@ == "\n"@ + border("╔"@, "╗"@, w),
            lines@[1]@ == framed(pad_line(title@, title_text(), w)),
            shown_with("1"@, title_text(), title@),
            forall|j: int| 0 <= j < i ==> painted_row(#[trigger] shown[j], todos@[j]),
            lines@[2]@ == border("╠"@, "╣"@, w),
            forall|j: int| 0 <= j < i ==>
                lines@[j + 3]@ == #[trigger] framed(pad_line(shown[j], plain_row(todos@[j]), w)),
        decreases todos@.len() - i,
    {
        let row = Row::from_todo(&todos[i]);
        let line = pad(row.colored.as_str(), row.plain.as_str(), width);
        lines.push(framed_line(line.as_str()));
        proof {
            shown = shown.push(row.colored@);
        }
        i = i + 1;
    }
    lines.push(border_mid(width));
    let closing = pad(summary.as_str(), summary.as_str(), width);
    lines.push(framed_line(closing.as_str()));
    let mut last = border_bottom(width);
    last.append("\n");
    lines.push(last);
    proof {
        let n = todos@.len() as int;
        assert(lines@[1]@ == framed(pad_line(title@, title_text(), w)));
        assert forall|i: int| 0 <= i < n implies #[trigger] shows_row(lines@[i + 3]@, todos@[i], w) by {
            assert(lines@[i + 3]@ == framed(pad_line(shown[i], plain_row(todos@[i]), w)));
        }
        assert(lines@[0]@ == "\n"@ + border("╔"@, "╗"@, w));
        assert(lines@[2]@ == border("╠"@, "╣"@, w));
        assert(lines@[n + 3]@ == border("╠"@, "╣"@, w));
        assert(lines@[n + 4]@ == framed(pad_line(summary_text(done_count(todos@), n as nat), summary_text(done_count(todos@), n as nat), w)));
        assert(lines@[n + 5]@ == border("╚"@, "╝"@, w) + "\n"@);
    }
    lines
}

/// The message for an id that no task has.
pub open spec fn not_found_text(id: u32) -> Seq<char> {
    "Todo with ID "@ + decimal(id as nat) + " not found"@
}

/// The message for an id that no task has, without colour.
pub fn not_found_message(id: u32) -> (r: String)
    ensures
        r@ == not_found_text(id),
{
    let mut r = String::from_str("Todo with ID ");
    let digits = decimal_text(id as u64);
    r.append(digits.as_str());
    r.append(" not found");
    r
}

/// The message for an id that no task has, as it is printed: in red where
/// the terminal takes colours.
pub fn not_found_line(id: u32) -> (r: String)
    ensures
        shown_with("31"@, not_found_text(id), r@),
{
    let text = not_found_message(id);
    proof {
        lemma_not_found_text_plain(id);
        lemma_no_esc_no_reset(not_found_text(id));
    }
    red(text.as_str())
}

} // verus!
