use vstd::prelude::*;

verus! {

/// The error that `std::fs` and `std::io` report.
#[verifier::external_type_specification]
#[verifier::external_body]
pub struct ExIoError(std::io::Error);

/// The error that `serde_json` reports when it cannot read or write JSON.
#[verifier::external_type_specification]
#[verifier::external_body]
pub struct ExJsonError(serde_json::Error);

/// The error that `rusqlite` reports.
#[verifier::external_type_specification]
#[verifier::external_body]
pub struct ExDbError(rusqlite::Error);

/// What can go wrong while the task list is read or written.
#[derive(Debug)]
pub enum TodoError {
    /// The storage file could not be read or written.
    Io(std::io::Error),
    /// The storage file does not hold a valid task list.
    Json(serde_json::Error),
    /// The database refused a statement.
    Db(rusqlite::Error),
    /// Every task id up to `u32::MAX` is taken, so no new task can get one.
    IdsExhausted,
}

} // verus!
