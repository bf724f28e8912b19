use todo_rs::models::{Priority, Todo};
use todo_rs::output::{
    border_bottom, border_mid, border_top, box_message_lines, box_width, count_done, not_found_message, pad,
    render_todos, summary_line, Row,
};
use todo_rs::text::{decimal_text, repeat_text, same_text};
use todo_rs::width::visible_len;

fn todo(id: u32, text: &str, done: bool, priority: Priority) -> Todo {
    Todo {
        id,
        text: text.to_string(),
        done,
        priority,
    }
}

#[test]
fn test_decimal_text() {
    assert_eq!(decimal_text(0), "0");
    assert_eq!(decimal_text(7), "7");
    assert_eq!(decimal_text(42), "42");
    assert_eq!(decimal_text(1000), "1000");
    assert_eq!(decimal_text(u64::MAX), u64::MAX.to_string());
}

#[test]
fn test_repeat_text() {
    assert_eq!(repeat_text("ab", 3), "ababab");
    assert_eq!(repeat_text("═", 0), "");
}

#[test]
fn test_same_text() {
    assert!(same_text("done", "done"));
    assert!(!same_text("done", "Done"));
    assert!(!same_text("done", "don"));
}

#[test]
fn test_visible_len_skips_colour_codes() {
    assert_eq!(visible_len("abc"), 3);
    assert_eq!(visible_len("\x1b[1;32m[X]\x1b[0m"), 3);
    assert_eq!(visible_len("日本"), 4);
    assert_eq!(visible_len("a\tb"), 2);
    assert_eq!(visible_len(""), 0);
}

#[test]
fn test_plain_rows() {
    let row = Row::from_todo(&todo(1, "Buy milk", true, Priority::Low));
    assert_eq!(row.plain, "[X]       1. Buy milk");
    let row = Row::from_todo(&todo(2, "Write docs", false, Priority::Medium));
    assert_eq!(row.plain, "[ ] [-]   2. Write docs");
    let row = Row::from_todo(&todo(1234, "Fix", false, Priority::High));
    assert_eq!(row.plain, "[ ] [!] 1234. Fix");
    assert_eq!(visible_len(&row.colored), visible_len(&row.plain));
}

#[test]
fn test_pad() {
    assert_eq!(pad("ab", "ab", 6), " ab   ");
    assert_eq!(pad("abcdef", "abcdef", 4), " abcdef ");
    assert_eq!(visible_len(&pad("ab", "ab", 10)), 10);
}

#[test]
fn test_borders() {
    assert_eq!(border_top(3), "╔═══╗");
    assert_eq!(border_mid(2), "╠══╣");
    assert_eq!(border_bottom(1), "╚═╝");
}

#[test]
fn test_summary_and_counts() {
    let todos = vec![
        todo(1, "Buy milk", true, Priority::High),
        todo(2, "Write docs", false, Priority::Medium),
        todo(3, "Fix critical bug", false, Priority::High),
    ];
    assert_eq!(count_done(&todos), 1);
    assert_eq!(summary_line(1, 3), "1/3 done");
    // the widest row, "[ ] [!]   3. Fix critical bug", has 29 columns, so
    // the table keeps its narrowest width
    assert_eq!(box_width(&todos, 1), 40);
}

#[test]
fn test_box_width_of_short_rows_is_the_narrowest() {
    let todos = vec![todo(1, "a", false, Priority::Low)];
    // "[ ]       1. a" has 14 columns, well under the narrowest table
    assert_eq!(box_width(&todos, 0), 40);
    assert_eq!(box_width(&[], 0), 40);
}

#[test]
fn test_render_empty_list() {
    let lines = render_todos(&[]);
    assert_eq!(lines.len(), 3);
    let width = visible_len("Todos not found. Add new todo: todo add <task>") + 4;
    assert_eq!(lines[0], format!("\n{}", border_top(width)));
    assert_eq!(lines[2], format!("{}\n", border_bottom(width)));
    assert!(lines[1].contains("Todos not found. Add new todo: todo add <task>"));
}

#[test]
fn test_render_table_lines() {
    let todos = vec![
        todo(1, "Buy milk", true, Priority::High),
        todo(2, "Write docs", false, Priority::Medium),
    ];
    let lines = render_todos(&todos);
    assert_eq!(lines.len(), 8);
    let width = box_width(&todos, 1);
    assert_eq!(lines[0], format!("\n{}", border_top(width)));
    assert_eq!(lines[2], border_mid(width));
    assert_eq!(lines[5], border_mid(width));
    assert_eq!(lines[6], format!("║{}║", pad("1/2 done", "1/2 done", width)));
    assert_eq!(lines[7], format!("{}\n", border_bottom(width)));
    for line in &lines[1..7] {
        if line.starts_with('║') {
            assert_eq!(visible_len(line), width + 2);
        }
    }
}

#[test]
fn test_box_message_lines() {
    let lines = box_message_lines("hi");
    assert_eq!(lines[0], "\n╔══════╗");
    assert_eq!(lines[2], "╚══════╝\n");
    assert!(lines[1].starts_with("║  ") && lines[1].ends_with("  ║"));
}

#[test]
fn test_not_found_message() {
    assert_eq!(not_found_message(99), "Todo with ID 99 not found");
}

#[test]
fn test_box_width_grows_with_long_rows() {
    let text = "x".repeat(50);
    let todos = vec![todo(1, &text, false, Priority::Low)];
    // "[ ]       1. " is 13 columns, then the text
    assert_eq!(box_width(&todos, 0), 13 + 50 + 2);
}

#[test]
fn test_box_drawing_is_one_column() {
    assert_eq!(visible_len("╔═╗║╠╣╚╝"), 8);
}

#[test]
fn test_readme_table() {
    colored::control::set_override(false);
    let todos = vec![
        todo(1, "Buy milk", true, Priority::High),
        todo(2, "Write docs", false, Priority::Medium),
        todo(3, "Fix critical bug", false, Priority::High),
    ];
    let lines = render_todos(&todos);
    let expected = vec![
        "\n╔════════════════════════════════════════╗",
        "║ Tasks:                                 ║",
        "╠════════════════════════════════════════╣",
        "║ [X] [!]   1. Buy milk                  ║",
        "║ [ ] [-]   2. Write docs                ║",
        "║ [ ] [!]   3. Fix critical bug          ║",
        "╠════════════════════════════════════════╣",
        "║ 1/3 done                               ║",
        "╚════════════════════════════════════════╝\n",
    ];
    assert_eq!(lines, expected);
    for line in &lines {
        assert_eq!(visible_len(line), 42);
    }
}
