//! Schema manager: brings the store file to the expected shape on every
//! startup — the tables, the additive migration, the seeded defaults, the
//! covering sidebar index, the full-text shadow index and the three triggers
//! that keep it in lockstep with the buffer rows.
use vstd::prelude::*;
use crate::sqlite;

verus! {

/// Creates whatever part of the schema is missing; idempotent. The one
/// additive migration's failure (the column exists already) is expected and
/// swallowed. The triggers pair every buffer insert, delete and update with
/// the matching shadow-index write, inside the same transaction.
pub fn initialize_schema(conn: &rusqlite::Connection) -> (r: Result<(), rusqlite::Error>) {
    match sqlite::execute_sql(
        conn,
        "CREATE TABLE IF NOT EXISTS buffers (\
            id TEXT PRIMARY KEY,\
            content TEXT NOT NULL DEFAULT '',\
            created_at INTEGER NOT NULL,\
            updated_at INTEGER NOT NULL,\
            accessed_at INTEGER NOT NULL,\
            is_archived INTEGER DEFAULT 0,\
            is_pinned INTEGER DEFAULT 0,\
            sort_order INTEGER DEFAULT 0\
        );",
    ) {
        Ok(_) => {},
        Err(e) => {
            return Err(e);
        },
    }
    let _ = sqlite::execute_sql(conn, "ALTER TABLE buffers ADD COLUMN sort_order INTEGER DEFAULT 0");
    match sqlite::execute_sql(
        conn,
        "CREATE TABLE IF NOT EXISTS settings (key TEXT PRIMARY KEY, value TEXT NOT NULL);",
    ) {
        Ok(_) => {},
        Err(e) => {
            return Err(e);
        },
    }
    match sqlite::execute_sql(
        conn,
        "INSERT OR IGNORE INTO settings (key, value) VALUES \
            ('font_family', 'JetBrains Mono'),\
            ('font_size', '13'),\
            ('line_height', '1.5');",
    ) {
        Ok(_) => {},
        Err(e) => {
            return Err(e);
        },
    }
    match sqlite::execute_sql(
        conn,
        "CREATE INDEX IF NOT EXISTS idx_buffers_sidebar \
         ON buffers (is_archived, is_pinned DESC, accessed_at DESC);",
    ) {
        Ok(_) => {},
        Err(e) => {
            return Err(e);
        },
    }
    match sqlite::execute_sql(
        conn,
        "CREATE VIRTUAL TABLE IF NOT EXISTS buffers_fts USING fts5(\
            content, content='buffers', content_rowid='rowid');",
    ) {
        Ok(_) => {},
        Err(e) => {
            return Err(e);
        },
    }
    match sqlite::execute_sql(
        conn,
        "CREATE TRIGGER IF NOT EXISTS buffers_ai AFTER INSERT ON buffers BEGIN \
            INSERT INTO buffers_fts(rowid, content) VALUES (new.rowid, new.content); \
         END;",
    ) {
        Ok(_) => {},
        Err(e) => {
            return Err(e);
        },
    }
    match sqlite::execute_sql(
        conn,
        "CREATE TRIGGER IF NOT EXISTS buffers_ad AFTER DELETE ON buffers BEGIN \
            INSERT INTO buffers_fts(buffers_fts, rowid, content) \
            VALUES('delete', old.rowid, old.content); \
         END;",
    ) {
        Ok(_) => {},
        Err(e) => {
            return Err(e);
        },
    }
    match sqlite::execute_sql(
        conn,
        "CREATE TRIGGER IF NOT EXISTS buffers_au AFTER UPDATE ON buffers BEGIN \
            INSERT INTO buffers_fts(buffers_fts, rowid, content) \
            VALUES('delete', old.rowid, old.content); \
            INSERT INTO buffers_fts(rowid, content) VALUES (new.rowid, new.content); \
         END;",
    ) {
        Ok(_) => {},
        Err(e) => {
            return Err(e);
        },
    }
    Ok(())
}

/// Runs the store's integrity check and reports whether it came back clean.
pub fn check_integrity(conn: &rusqlite::Connection) -> (r: Result<bool, rusqlite::Error>) {
    match sqlite::integrity_check_result(conn) {
        Ok(text) => Ok(text == "ok".to_owned()),
        Err(e) => Err(e),
    }
}

/// Compacts the store file to reclaim space.
pub fn vacuum(conn: &rusqlite::Connection) -> (r: Result<(), rusqlite::Error>) {
    match sqlite::execute_sql(conn, "VACUUM;") {
        Ok(_) => Ok(()),
        Err(e) => Err(e),
    }
}

} // verus!
