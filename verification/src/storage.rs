use vstd::prelude::*;
use crate::error::TodoError;
use crate::models::Todo;
use crate::config::{clone_path, Config, StorageBackend};
use std::path::PathBuf;

verus! {

/// Where the task list is kept.
pub trait Storage {
    /// Reads the whole task list.
    fn load(&self) -> Result<Vec<Todo>, TodoError>;

    /// Replaces the stored task list by `todos`.
    fn save(&self, todos: &[Todo]) -> Result<(), TodoError>;
}

// What a storage's calls can give back. The trait holds no contract, so
// nothing is claimed of these calls; `call_ensures` names their possible
// outcomes, so that a command can say that it works on the very list that
// its `load` gave and hands its result to `save`.

/// `storage.load()` can give back the list `todos`.
pub open spec fn can_load<S: Storage + ?Sized>(storage: &S, todos: Seq<Todo>) -> bool {
    exists|r: Result<Vec<Todo>, TodoError>|
        #[trigger] call_ensures(S::load, (storage,), r) && r is Ok && r->Ok_0@ == todos
}

/// `storage.load()` can fail with the error `e`.
pub open spec fn can_fail_load<S: Storage + ?Sized>(storage: &S, e: TodoError) -> bool {
    exists|r: Result<Vec<Todo>, TodoError>|
        #[trigger] call_ensures(S::load, (storage,), r) && r == Err::<Vec<Todo>, TodoError>(e)
}

/// `storage.save(..)` can succeed on the list `todos`.
pub open spec fn can_save<S: Storage + ?Sized>(storage: &S, todos: Seq<Todo>) -> bool {
    exists|s: &[Todo], r: Result<(), TodoError>|
        #[trigger] call_ensures(S::save, (storage, s), r) && r is Ok && s@ == todos
}

/// `storage.save(..)` can fail with the error `e` on the list `todos`.
pub open spec fn can_fail_save<S: Storage + ?Sized>(storage: &S, todos: Seq<Todo>, e: TodoError) -> bool {
    exists|s: &[Todo], r: Result<(), TodoError>|
        #[trigger] call_ensures(S::save, (storage, s), r) && r == Err::<(), TodoError>(e) && s@ == todos
}

/// A task list kept as JSON in a file. Reading and writing the file is the
/// program's I/O; this value only knows where the file is.
pub struct FileStorage {
    path: PathBuf,
}

impl FileStorage {
    /// The file that holds the task list.
    pub closed spec fn location(&self) -> PathBuf {
        self.path
    }

    /// The JSON file that `config` names.
    pub fn new(config: &Config) -> (s: FileStorage)
        ensures
            s.location() == config.storage_path,
    {
        FileStorage { path: clone_path(&config.storage_path) }
    }

    /// The file that holds the task list.
    pub fn path(&self) -> (p: &PathBuf)
        ensures
            *p == self.location(),
    {
        &self.path
    }
}

/// A task list kept in an SQLite database. Opening the database and running
/// statements is the program's I/O; this value only knows where it is.
pub struct SqliteStorage {
    path: PathBuf,
}

impl SqliteStorage {
    /// The database file.
    pub closed spec fn location(&self) -> PathBuf {
        self.path
    }

    /// The database that `config` names. Creating its table, when it is
    /// missing, is done where the database is opened.
    pub fn new(config: &Config) -> (s: SqliteStorage)
        ensures
            s.location() == config.database_path,
    {
        SqliteStorage { path: clone_path(&config.database_path) }
    }

    /// The database file.
    pub fn path(&self) -> (p: &PathBuf)
        ensures
            *p == self.location(),
    {
        &self.path
    }
}

/// The storage that a configuration names.
pub enum StorageChoice {
    /// The JSON file of the configuration.
    Json(FileStorage),
    /// The SQLite database of the configuration.
    Sqlite(SqliteStorage),
}

/// The storage that `config` names: its JSON file when the backend is
/// JSON, its database when the backend is SQLite.
pub fn choose_storage(config: &Config) -> (c: StorageChoice)
    ensures
        match c {
            StorageChoice::Json(f) => config.storage_backend == StorageBackend::Json
                && f.location() == config.storage_path,
            StorageChoice::Sqlite(d) => config.storage_backend == StorageBackend::Sqlite
                && d.location() == config.database_path,
        },
{
    match config.storage_backend {
        StorageBackend::Json => StorageChoice::Json(FileStorage::new(config)),
        StorageBackend::Sqlite => StorageChoice::Sqlite(SqliteStorage::new(config)),
    }
}

} // verus!
