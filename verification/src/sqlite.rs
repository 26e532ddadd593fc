//! The trusted boundary to the SQLite driver: declarations of the driver's
//! types and thin wrappers around the driver calls the store makes. Every
//! contract here states only what the named driver call and its statement
//! text show; the logic around these calls is verified in the other modules.
use vstd::prelude::*;
use rusqlite::OptionalExtension;
use crate::queries::{Buffer, SearchResult, SidebarRow};

verus! {

#[verifier::external_type_specification]
#[verifier::external_body]
pub struct ExConnection(rusqlite::Connection);

#[verifier::external_type_specification]
#[verifier::external_body]
pub struct ExError(rusqlite::Error);

#[verifier::external_type_specification]
#[verifier::external_body]
pub struct ExTransaction<'conn>(rusqlite::Transaction<'conn>);

/// Relies on rusqlite's `Connection::open`: opens or creates the store file.
#[verifier::external_body]
pub(crate) fn open_connection(path: &str) -> (r: Result<rusqlite::Connection, rusqlite::Error>) {
    rusqlite::Connection::open(path)
}

/// Relies on rusqlite's `Connection::open_with_flags` with the read-only
/// flag: a handle against an existing store file that rejects writes.
#[verifier::external_body]
pub(crate) fn open_connection_read_only(path: &str) -> (r: Result<
    rusqlite::Connection,
    rusqlite::Error,
>) {
    rusqlite::Connection::open_with_flags(
        path,
        rusqlite::OpenFlags::SQLITE_OPEN_READ_ONLY | rusqlite::OpenFlags::SQLITE_OPEN_NO_MUTEX,
    )
}

/// Relies on rusqlite's `Connection::open_in_memory`.
#[verifier::external_body]
pub(crate) fn open_memory_connection() -> (r: Result<rusqlite::Connection, rusqlite::Error>) {
    rusqlite::Connection::open_in_memory()
}

/// Relies on rusqlite's `Connection::execute_batch`: runs the statements of
/// `sql` one after another.
#[verifier::external_body]
pub(crate) fn execute_batch(conn: &rusqlite::Connection, sql: &str) -> (r: Result<
    (),
    rusqlite::Error,
>) {
    conn.execute_batch(sql)
}

/// Relies on rusqlite's `Connection::execute` with no parameters; returns the
/// number of rows changed.
#[verifier::external_body]
pub(crate) fn execute_sql(conn: &rusqlite::Connection, sql: &str) -> (r: Result<
    usize,
    rusqlite::Error,
>) {
    conn.execute(sql, ())
}

/// Relies on rusqlite's `Connection::query_row`: the smallest `sort_order`
/// among non-archived buffers, `None` when there is none.
#[verifier::external_body]
pub(crate) fn query_min_sort_order(conn: &rusqlite::Connection) -> (r: Result<
    Option<i64>,
    rusqlite::Error,
>) {
    conn.query_row(
        "SELECT MIN(sort_order) FROM buffers WHERE is_archived = 0",
        (),
        |row| row.get(0),
    )
}

/// Relies on rusqlite's `Connection::execute`: inserts one buffer row with
/// the three timestamps set to `timestamp`.
#[verifier::external_body]
pub(crate) fn insert_buffer_row(
    conn: &rusqlite::Connection,
    id: &str,
    content: &str,
    timestamp: i64,
    sort_order: i64,
) -> (r: Result<usize, rusqlite::Error>) {
    conn.execute(
        "INSERT INTO buffers (id, content, created_at, updated_at, accessed_at, sort_order) \
         VALUES (?, ?, ?, ?, ?, ?)",
        (id, content, timestamp, timestamp, timestamp, sort_order),
    )
}

/// Relies on rusqlite's `Connection::execute`: sets `content` and
/// `updated_at` of the row with the given id; returns the rows changed.
#[verifier::external_body]
pub(crate) fn update_content_row(
    conn: &rusqlite::Connection,
    id: &str,
    content: &str,
    timestamp: i64,
) -> (r: Result<usize, rusqlite::Error>) {
    conn.execute(
        "UPDATE buffers SET content = ?, updated_at = ? WHERE id = ?",
        (content, timestamp, id),
    )
}

/// Relies on rusqlite's `Connection::execute`: sets `accessed_at` of the row
/// with the given id; returns the rows changed.
#[verifier::external_body]
pub(crate) fn touch_row(conn: &rusqlite::Connection, id: &str, timestamp: i64) -> (r: Result<
    usize,
    rusqlite::Error,
>) {
    conn.execute("UPDATE buffers SET accessed_at = ? WHERE id = ?", (timestamp, id))
}

/// Relies on rusqlite's `Connection::execute`: deletes the row with the given
/// id; returns the rows changed.
#[verifier::external_body]
pub(crate) fn delete_row(conn: &rusqlite::Connection, id: &str) -> (r: Result<
    usize,
    rusqlite::Error,
>) {
    conn.execute("DELETE FROM buffers WHERE id = ?", (id,))
}

/// Relies on rusqlite's `Connection::execute`: flips `is_pinned` of the row
/// with the given id.
#[verifier::external_body]
pub(crate) fn flip_pin_row(conn: &rusqlite::Connection, id: &str) -> (r: Result<
    usize,
    rusqlite::Error,
>) {
    conn.execute("UPDATE buffers SET is_pinned = NOT is_pinned WHERE id = ?", (id,))
}

/// Relies on rusqlite's `Connection::query_row`: the stored `is_pinned` flag
/// of the row with the given id; an error when there is no such row.
#[verifier::external_body]
pub(crate) fn query_pin_state(conn: &rusqlite::Connection, id: &str) -> (r: Result<
    bool,
    rusqlite::Error,
>) {
    conn.query_row("SELECT is_pinned FROM buffers WHERE id = ?", (id,), |row| row.get(0))
}

/// Relies on rusqlite's `Statement::query_row` and `OptionalExtension`: the
/// full row with the given id, or `None` when absent.
#[verifier::external_body]
pub(crate) fn query_buffer_row(conn: &rusqlite::Connection, id: &str) -> (r: Result<
    Option<Buffer>,
    rusqlite::Error,
>) {
    conn.query_row(
        "SELECT id, content, created_at, updated_at, accessed_at, is_archived, is_pinned \
         FROM buffers WHERE id = ?",
        (id,),
        |row| {
            Ok(Buffer {
                id: row.get(0)?, content: row.get(1)?, created_at: row.get(2)?,
                updated_at: row.get(3)?, accessed_at: row.get(4)?,
                is_archived: row.get(5)?, is_pinned: row.get(6)?,
            })
        },
    ).optional()
}

/// Relies on rusqlite's `Statement::query_map`: the non-archived rows ordered
/// pinned-first, then by `sort_order` ascending, then by `accessed_at`
/// descending, at most `limit` of them. The statement's `ORDER BY is_pinned
/// DESC` puts every pinned row before every unpinned one, and its `LIMIT`
/// bounds the count. The pinned-prefix clause rests on the flag holding 0 or
/// 1, true of every row this library writes (inserts default the flag to 0
/// and the flip stores `NOT is_pinned`); the driver reads any non-zero value
/// back as true.
#[verifier::external_body]
pub(crate) fn query_sidebar_rows(conn: &rusqlite::Connection, limit: i64) -> (r: Result<
    Vec<SidebarRow>,
    rusqlite::Error,
>)
    ensures
        r matches Ok(rows) ==> (limit >= 0 ==> rows@.len() <= limit),
        r matches Ok(rows) ==> forall|a: int, b: int|
            #![trigger rows@[a].is_pinned, rows@[b].is_pinned]
            0 <= a <= b < rows@.len() && rows@[b].is_pinned ==> rows@[a].is_pinned,
{
    let mut stmt = conn.prepare(
        "SELECT id, content, updated_at, is_pinned FROM buffers WHERE is_archived = 0 \
         ORDER BY is_pinned DESC, sort_order ASC, accessed_at DESC LIMIT ?",
    )?;
    let rows = stmt.query_map([limit], |row| {
        Ok(SidebarRow {
            id: row.get(0)?,
            content: row.get(1)?,
            updated_at: row.get(2)?,
            is_pinned: row.get(3)?,
        })
    })?;
    rows.collect()
}

/// Relies on rusqlite's `Statement::query_map` over the full-text index: the
/// matching non-archived rows in relevance order with highlighted snippets,
/// at most `limit` of them (the statement's `LIMIT`).
#[verifier::external_body]
pub(crate) fn query_search_rows(
    conn: &rusqlite::Connection,
    match_expr: &str,
    limit: i64,
) -> (r: Result<Vec<SearchResult>, rusqlite::Error>)
    ensures
        r matches Ok(rows) ==> (limit >= 0 ==> rows@.len() <= limit),
{
    let mut stmt = conn.prepare(
        "SELECT b.id, highlight(buffers_fts, 0, '<mark>', '</mark>') as snippet, b.updated_at \
         FROM buffers_fts JOIN buffers b ON buffers_fts.rowid = b.rowid \
         WHERE buffers_fts MATCH ? AND b.is_archived = 0 ORDER BY rank LIMIT ?",
    )?;
    let rows = stmt.query_map((match_expr, limit), |row| {
        Ok(SearchResult { id: row.get(0)?, snippet: row.get(1)?, updated_at: row.get(2)? })
    })?;
    rows.collect()
}

/// Relies on rusqlite's `Connection::query_row` and `OptionalExtension`: the
/// first non-archived row in sidebar order whose id differs from `current`.
/// The statement's `WHERE id != ?` excludes `current`, and SQLite compares
/// TEXT byte-wise, so a returned id never equals `current`.
#[verifier::external_body]
pub(crate) fn query_next_id(conn: &rusqlite::Connection, current: &str) -> (r: Result<
    Option<String>,
    rusqlite::Error,
>)
    ensures
        r matches Ok(Some(id)) ==> id@ != current@,
{
    conn.query_row(
        "SELECT id FROM buffers WHERE is_archived = 0 AND id != ? \
         ORDER BY is_pinned DESC, sort_order ASC, accessed_at DESC LIMIT 1",
        (current,),
        |row| row.get(0),
    ).optional()
}

/// Relies on rusqlite's `Statement::query_map`: the id and content of every
/// non-archived row, for the cleanup decision.
#[verifier::external_body]
pub(crate) fn query_non_archived_contents(conn: &rusqlite::Connection) -> (r: Result<
    Vec<(String, String)>,
    rusqlite::Error,
>) {
    let mut stmt = conn.prepare("SELECT id, content FROM buffers WHERE is_archived = 0")?;
    let rows = stmt.query_map((), |row| Ok((row.get(0)?, row.get(1)?)))?;
    rows.collect()
}

/// Relies on rusqlite's `Statement::query_map`: every stored settings row as
/// a key/value pair.
#[verifier::external_body]
pub(crate) fn query_settings_rows(conn: &rusqlite::Connection) -> (r: Result<
    Vec<(String, String)>,
    rusqlite::Error,
>) {
    let mut stmt = conn.prepare("SELECT key, value FROM settings")?;
    let rows = stmt.query_map((), |row| Ok((row.get(0)?, row.get(1)?)))?;
    rows.collect()
}

/// Relies on rusqlite's `Connection::execute`: inserts or replaces one
/// settings row.
#[verifier::external_body]
pub(crate) fn upsert_setting_row(conn: &rusqlite::Connection, key: &str, value: &str) -> (r:
    Result<usize, rusqlite::Error>) {
    conn.execute("INSERT OR REPLACE INTO settings (key, value) VALUES (?, ?)", (key, value))
}

/// Relies on rusqlite's `Connection::transaction`: starts a transaction that
/// rolls back when dropped without a commit.
#[verifier::external_body]
pub(crate) fn begin_transaction<'a>(conn: &'a mut rusqlite::Connection) -> (r: Result<
    rusqlite::Transaction<'a>,
    rusqlite::Error,
>) {
    conn.transaction()
}

/// Relies on rusqlite's `Connection::execute`, reached through the
/// transaction's `Deref`: sets `sort_order` of the row with the given id.
#[verifier::external_body]
pub(crate) fn tx_set_sort_order(
    tx: &rusqlite::Transaction<'_>,
    sort_order: i64,
    id: &str,
) -> (r: Result<usize, rusqlite::Error>) {
    tx.execute("UPDATE buffers SET sort_order = ? WHERE id = ?", (sort_order, id))
}

/// Relies on rusqlite's `Transaction::commit`.
#[verifier::external_body]
pub(crate) fn commit_transaction(tx: rusqlite::Transaction<'_>) -> (r: Result<
    (),
    rusqlite::Error,
>) {
    tx.commit()
}

/// Relies on rusqlite's `Connection::execute` running `VACUUM INTO`: writes a
/// transactionally consistent snapshot of the store to `dest`.
#[verifier::external_body]
pub(crate) fn vacuum_into(conn: &rusqlite::Connection, dest: &str) -> (r: Result<
    usize,
    rusqlite::Error,
>) {
    conn.execute(&format!("VACUUM INTO '{}'", dest), ())
}

/// Relies on rusqlite's `Connection::query_row` running
/// `PRAGMA integrity_check`: the check's one-line verdict.
#[verifier::external_body]
pub(crate) fn integrity_check_result(conn: &rusqlite::Connection) -> (r: Result<
    String,
    rusqlite::Error,
>) {
    conn.query_row("PRAGMA integrity_check;", (), |row| row.get(0))
}

/// Relies on the driver error's `Display` impl for a readable description.
#[verifier::external_body]
pub(crate) fn db_error_text(e: &rusqlite::Error) -> (r: String) {
    format!("{}", e)
}

/// Relies on rusqlite's `Error::sqlite_error_code`: whether the failure is a
/// plain statement error (primary code `SQLITE_ERROR`, surfaced as
/// `ErrorCode::Unknown`, "SQL error"), which for this library's fixed
/// statement texts means the engine rejected a bound full-text match
/// expression. Contention, I/O and corruption carry other codes.
#[verifier::external_body]
pub(crate) fn is_statement_error(e: &rusqlite::Error) -> (r: bool) {
    e.sqlite_error_code() == Some(rusqlite::ErrorCode::Unknown)
}

} // verus!
