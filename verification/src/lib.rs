//! A small task list manager: the task model, the rules that add, list,
//! complete and remove tasks, the configuration, and the text rendering of
//! the task table. Reading and writing files and the database, parsing the
//! command line and printing are left to the program that uses the library.

pub mod models;
pub mod error;
pub mod storage;
pub mod commands;
pub mod priority;
pub mod config;
pub mod text;
pub mod width;
pub mod paint;
pub mod output;
pub mod laws;
