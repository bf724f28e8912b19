# todo_rs

A small command-line task manager whose rules are verified with Verus.

- `src/` is the verified library: the task model (`models`), the rules that
  add, list, complete and remove tasks (`commands`), the storage interface
  (`storage`), priorities (`priority`), the configuration (`config`), the
  terminal width of text (`width`), colours (`paint`), the rendering of the
  task table (`output`) and the laws that hold across these (`laws`).
- `app/` is the `todo` program around it: command-line parsing, the JSON
  file and SQLite backends, the configuration file, and printing.
- `tests/` runs the library on concrete values.
