use todo_rs::models::{Priority, Todo};
use todo_rs::output::{box_message_lines, not_found_line, render_todos, Row};
use todo_rs::width::visible_len;

fn task(id: u32, text: &str, done: bool, priority: Priority) -> Todo {
    Todo {
        id,
        text: text.to_string(),
        done,
        priority,
    }
}

#[test]
fn test_colours_when_forced_on() {
    colored::control::set_override(true);
    let row = Row::from_todo(&task(5, "Buy milk", true, Priority::High));
    assert_eq!(row.plain, "[X] [!]   5. Buy milk");
    assert!(row.colored.starts_with("\x1b[1;32m[X]\x1b[0m \x1b[1;31m[!]\x1b[0m   5. \x1b["));
    assert!(row.colored.ends_with("Buy milk\x1b[0m"));
    assert_eq!(visible_len(&row.colored), visible_len(&row.plain));

    let row = Row::from_todo(&task(6, "Write docs", false, Priority::Medium));
    assert_eq!(row.colored, "\x1b[37m[ ]\x1b[0m \x1b[33m[-]\x1b[0m   6. Write docs");

    let row = Row::from_todo(&task(7, "Rest", false, Priority::Low));
    assert_eq!(row.colored, "\x1b[37m[ ]\x1b[0m       7. Rest");

    assert_eq!(not_found_line(7), "\x1b[31mTodo with ID 7 not found\x1b[0m");

    let lines = box_message_lines("hi");
    assert_eq!(lines[1], "║  \x1b[33mhi\x1b[0m  ║");

    let lines = render_todos(&[task(1, "a", false, Priority::Low)]);
    assert!(lines[1].starts_with("║ \x1b[1mTasks:\x1b[0m"));
    assert_eq!(visible_len(&lines[1]), visible_len(&lines[3]));
}

#[test]
fn test_colours_when_forced_off() {
    colored::control::set_override(false);
    assert_eq!(not_found_line(7), "Todo with ID 7 not found");
    let row = Row::from_todo(&task(5, "Buy milk", true, Priority::High));
    assert_eq!(row.colored, row.plain);
    let lines = render_todos(&[task(1, "a", false, Priority::Low)]);
    assert!(lines[1].starts_with("║ Tasks:"));
}

#[test]
fn test_each_part_has_its_colour() {
    colored::control::set_override(true);
    let row = Row::from_todo(&task(3, "Fix", false, Priority::High));
    assert_eq!(row.colored, "\x1b[37m[ ]\x1b[0m \x1b[1;31m[!]\x1b[0m   3. Fix");
    let row = Row::from_todo(&task(4, "Tea", true, Priority::Low));
    assert_eq!(row.colored, "\x1b[1;32m[X]\x1b[0m       4. \x1b[2;9mTea\x1b[0m");
    let lines = render_todos(&[]);
    assert!(lines[1].contains("\x1b[33mTodos not found. Add new todo: todo add <task>\x1b[0m"));
}
