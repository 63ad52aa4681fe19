//! Where and how notes are stored.

use vstd::prelude::*;

verus! {

/// Creates the notes table when it is missing.
pub const CREATE_NOTES_SQL: &'static str = "CREATE TABLE IF NOT EXISTS notes (
    id          INTEGER PRIMARY KEY AUTOINCREMENT,
    topic       TEXT NOT NULL,
    content     TEXT NOT NULL,
    created_at  TEXT NOT NULL DEFAULT (datetime('now'))
);";

/// Writes one note; the topic binds to `?1`, the content to `?2`.
pub const INSERT_NOTE_SQL: &'static str = "INSERT INTO notes (topic, content) VALUES (?1, ?2)";

/// The store file, relative to the working directory.
pub fn db_path() -> (r: String)
    ensures
        r@ == "data_test.db"@,
{
    "data_test.db".to_owned()
}

} // verus!
