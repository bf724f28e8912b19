use vstd::prelude::*;
use std::path::PathBuf;

verus! {

/// An owned filesystem path.
#[verifier::external_type_specification]
#[verifier::external_body]
pub struct ExPathBuf(std::path::PathBuf);

/// Where the tasks are kept.
#[derive(Clone, Copy, Debug, PartialEq, Eq, Structural)]
pub enum StorageBackend {
    /// A JSON file.
    Json,
    /// An SQLite database.
    Sqlite,
}

impl Default for StorageBackend {
    /// Tasks are kept in a JSON file unless the configuration says otherwise.
    fn default() -> (b: StorageBackend)
        ensures
            b == StorageBackend::Json,
    {
        StorageBackend::Json
    }
}

/// The settings read from the configuration file.
#[derive(Debug)]
pub struct Config {
    pub storage_backend: StorageBackend,
    pub storage_path: PathBuf,
    pub database_path: PathBuf,
}

/// The path that `PathBuf::from` makes of a string: its characters, taken
/// as a path, on every platform.
pub uninterp spec fn path_of_text(s: Seq<char>) -> PathBuf;

/// Calls `PathBuf::from` on a string slice. Trusted: the path is a function
/// of the characters alone, named `path_of_text`.
#[verifier::external_body]
fn path_from(s: &str) -> (p: PathBuf)
    ensures
        p == path_of_text(s@),
{
    PathBuf::from(s)
}

/// The path that `Path::join` makes of a base path and one more part: a
/// function of the two on the target the program is built for (the
/// separator is the target's).
pub uninterp spec fn path_joined(base: PathBuf, part: Seq<char>) -> PathBuf;

/// Calls `Path::join`. Trusted: the joined path is a function of the base
/// path and the part, named `path_joined`.
#[verifier::external_body]
fn join(base: &PathBuf, part: &str) -> (r: PathBuf)
    ensures
        r == path_joined(*base, part@),
{
    base.join(part)
}

/// Calls `PathBuf::clone`. Trusted: the clone is the same path.
#[verifier::external_body]
pub(crate) fn clone_path(p: &PathBuf) -> (r: PathBuf)
    ensures
        r == *p,
{
    p.clone()
}

/// Calls `dirs::config_dir`. Trusted, with nothing claimed of the result:
/// it depends on the platform and the environment of the process.
#[verifier::external_body]
fn config_dir() -> Option<PathBuf> {
    dirs::config_dir()
}

/// The directory that holds the program's files, given the user's
/// configuration directory: its `todo_rs` subdirectory, or `./todo_rs` when
/// there is none.
pub open spec fn app_dir_of(config_dir: Option<PathBuf>) -> PathBuf {
    let base = match config_dir {
        Some(d) => d,
        None => path_of_text("."@),
    };
    path_joined(base, "todo_rs"@)
}

/// Where the JSON file is by default, given the user's configuration
/// directory.
pub open spec fn default_storage_path(config_dir: Option<PathBuf>) -> PathBuf {
    path_joined(app_dir_of(config_dir), "todos.json"@)
}

/// Where the database is by default, given the user's configuration
/// directory.
pub open spec fn default_database_path(config_dir: Option<PathBuf>) -> PathBuf {
    path_joined(app_dir_of(config_dir), "todos.db"@)
}

/// Where the configuration file is, given the user's configuration
/// directory; nowhere when there is none.
pub open spec fn config_file_of(config_dir: Option<PathBuf>) -> Option<PathBuf> {
    match config_dir {
        Some(d) => Some(path_joined(path_joined(d, "todo_rs"@), "config.toml"@)),
        None => None,
    }
}

/// The directory that holds the program's files (see [`app_dir_of`]).
fn app_dir_in(config_dir: Option<PathBuf>) -> (p: PathBuf)
    ensures
        p == app_dir_of(config_dir),
{
    let base = match config_dir {
        Some(d) => d,
        None => path_from("."),
    };
    join(&base, "todo_rs")
}

impl Config {
    /// The default settings, given the user's configuration directory: a
    /// JSON file `todos.json` and a database `todos.db`, both in its
    /// `todo_rs` subdirectory (in `./todo_rs` when there is no such
    /// directory).
    pub fn in_config_dir(config_dir: Option<PathBuf>) -> (c: Config)
        ensures
            c.storage_backend == StorageBackend::Json,
            c.storage_path == default_storage_path(config_dir),
            c.database_path == default_database_path(config_dir),
    {
        let dir = app_dir_in(config_dir);
        Config {
            storage_backend: StorageBackend::default(),
            storage_path: join(&dir, "todos.json"),
            database_path: join(&dir, "todos.db"),
        }
    }
}

impl Default for Config {
    /// The settings used when there is no configuration file (see
    /// [`Config::in_config_dir`]), in the user's configuration directory as
    /// the environment gives it.
    fn default() -> (c: Config)
        ensures
            c.storage_backend == StorageBackend::Json,
            exists|d: Option<PathBuf>|
                c.storage_path == #[trigger] default_storage_path(d) && c.database_path == default_database_path(d),
    {
        let d = config_dir();
        let c = Config::in_config_dir(d);
        assert(c.storage_path == default_storage_path(d));
        c
    }
}

/// The path of the configuration file, given the user's configuration
/// directory: `todo_rs/config.toml` in it; `None` when there is no such
/// directory.
pub fn config_file_in(config_dir: Option<PathBuf>) -> (p: Option<PathBuf>)
    ensures
        p == config_file_of(config_dir),
{
    match config_dir {
        Some(dir) => {
            let app = join(&dir, "todo_rs");
            Some(join(&app, "config.toml"))
        },
        None => None,
    }
}

/// The path of the configuration file in the user's configuration directory
/// as the environment gives it (see [`config_file_in`]); `None` when the
/// platform has no such directory.
pub fn get_config_path() -> (p: Option<PathBuf>)
    ensures
        exists|d: Option<PathBuf>| p == #[trigger] config_file_of(d),
{
    let d = config_dir();
    let p = config_file_in(d);
    assert(p == config_file_of(d));
    p
}

} // verus!
