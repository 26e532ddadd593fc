//! The operation surface the shell calls, one function per operation: each
//! validates and computes in verified code, reaches the store through the
//! query layer, and renders failures as readable messages.
use vstd::prelude::*;
use vstd::string::StringExecFns;
use crate::errors::StoreError;
use crate::errors::map_db_error;
use crate::errors::too_large_msg;
use crate::queries;
use crate::queries::AppSettings;
use crate::queries::Buffer;
use crate::queries::BufferSummary;
use crate::queries::MAX_CONTENT_SIZE;
use crate::queries::SearchResult;
use crate::queries::byte_len;
use crate::text::extract_title_preview;
use crate::text::is_blank;
use crate::text::preview_of;
use crate::text::title_of;

verus! {

/// Relies on chrono's `Utc::now`: the current Unix time in seconds. Nothing
/// is assumed of the clock's value; the call panics only in the environmental
/// case of a system clock reading before 1970.
#[verifier::external_body]
fn now() -> (r: i64) {
    chrono::Utc::now().timestamp()
}

/// Relies on uuid's `Uuid::new_v4` and its `Display`: a fresh random
/// identifier, printed in the hyphenated form, which is always 36 characters.
/// The call panics only in the environmental case of a failed OS entropy
/// source.
#[verifier::external_body]
fn new_buffer_id() -> (r: String)
    ensures
        r@.len() == 36,
{
    uuid::Uuid::new_v4().to_string()
}

/// The content a create call stores: the given text, or empty.
pub open spec fn effective_content(content: Option<String>) -> Seq<char> {
    match content {
        Some(c) => c@,
        None => Seq::empty(),
    }
}

/// Creates a new buffer with optional content and returns its summary for an
/// immediate list update: a fresh id, the derived title and preview, not
/// pinned. Oversized content is rejected with a message naming the size.
pub fn create_buffer(conn: &rusqlite::Connection, content: Option<String>) -> (r: Result<
    BufferSummary,
    String,
>)
    ensures
        r matches Ok(s) ==> (s.is_pinned == false && s.id@.len() == 36 && s.title@ == title_of(
            effective_content(content),
        ) && s.preview@ == preview_of(effective_content(content))),
        byte_len(effective_content(content)) > MAX_CONTENT_SIZE ==> (r matches Err(m) && m@
            == too_large_msg(byte_len(effective_content(content)))),
        r matches Err(m) ==> ((byte_len(effective_content(content)) > MAX_CONTENT_SIZE && m@
            == too_large_msg(byte_len(effective_content(content)))) || m@.take(
            "Failed to create buffer"@.len() as int,
        ) == "Failed to create buffer"@),
{
    let text = match content {
        Some(c) => c,
        None => String::new(),
    };
    let id = new_buffer_id();
    let timestamp = now();
    match queries::create_buffer(conn, id.as_str(), text.as_str(), timestamp) {
        Ok(_) => {
            let (title, preview) = extract_title_preview(text.as_str());
            Ok(
                BufferSummary {
                    id,
                    title,
                    preview,
                    updated_at: timestamp,
                    is_pinned: false,
                },
            )
        },
        Err(StoreError::ContentTooLarge { size }) => Err(
            (StoreError::ContentTooLarge { size }).message(),
        ),
        Err(StoreError::Db(d)) => map_db_error(Err(d), "Failed to create buffer"),
    }
}

/// Saves new content and returns the fresh title and preview, so the sidebar
/// can update without a round trip. Oversized content is rejected with a
/// message naming the size.
pub fn save_buffer(conn: &rusqlite::Connection, id: &str, content: &str) -> (r: Result<
    (String, String),
    String,
>)
    ensures
        r matches Ok(p) ==> (p.0@ == title_of(content@) && p.1@ == preview_of(content@)),
        byte_len(content@) > MAX_CONTENT_SIZE ==> (r matches Err(m) && m@ == too_large_msg(
            byte_len(content@),
        )),
        r matches Err(m) ==> ((byte_len(content@) > MAX_CONTENT_SIZE && m@ == too_large_msg(
            byte_len(content@),
        )) || m@.take("Failed to save buffer"@.len() as int) == "Failed to save buffer"@),
{
    match queries::update_buffer_content(conn, id, content, now()) {
        Ok(_) => Ok(extract_title_preview(content)),
        Err(StoreError::ContentTooLarge { size }) => Err(
            (StoreError::ContentTooLarge { size }).message(),
        ),
        Err(StoreError::Db(d)) => map_db_error(Err(d), "Failed to save buffer"),
    }
}

/// Maps a fetched buffer to its content; an absent buffer becomes the
/// not-found error naming the id.
pub fn content_or_not_found(found: Option<Buffer>, id: &str) -> (r: Result<String, String>)
    ensures
        found matches Some(b) ==> r == Ok::<String, String>(b.content),
        found is None ==> (r matches Err(m) && m@ == "Buffer not found: "@ + id@),
{
    match found {
        Some(b) => Ok(b.content),
        None => {
            let mut m = "Buffer not found: ".to_owned();
            m.append(id);
            Err(m)
        },
    }
}

/// The full content of a buffer. Opening a buffer counts as using it, so the
/// call first advances `accessed_at`; a missing id is the not-found error
/// naming it, and a driver failure carries its step's context.
pub fn get_buffer_content(conn: &rusqlite::Connection, id: &str) -> (r: Result<String, String>)
    ensures
        r matches Err(m) ==> (m@ == "Buffer not found: "@ + id@ || m@.take(
            "Failed to touch buffer"@.len() as int,
        ) == "Failed to touch buffer"@ || m@.take("Failed to get buffer"@.len() as int)
            == "Failed to get buffer"@),
{
    match map_db_error(queries::touch_buffer(conn, id, now()), "Failed to touch buffer") {
        Ok(_) => {},
        Err(m) => {
            return Err(m);
        },
    }
    match queries::get_buffer_content(conn, id) {
        Ok(found) => content_or_not_found(found, id),
        Err(e) => map_db_error(Err(e), "Failed to get buffer"),
    }
}

/// The sidebar page: at most 100 summaries, pinned buffers first; titles and
/// previews come row for row through `summarize_rows`.
pub fn get_sidebar_data(conn: &rusqlite::Connection) -> (r: Result<Vec<BufferSummary>, String>)
    ensures
        r matches Ok(v) ==> v@.len() <= 100,
        r matches Ok(v) ==> forall|a: int, b: int|
            #![trigger v@[a].is_pinned, v@[b].is_pinned]
            0 <= a <= b < v@.len() && v@[b].is_pinned ==> v@[a].is_pinned,
{
    map_db_error(queries::get_sidebar_buffers(conn, 100), "Failed to get sidebar data")
}

/// Full-text search over non-archived buffers, at most 20 hits; a blank query
/// gives an empty result without touching the store, and a match expression
/// the index rejects degrades to an empty result.
pub fn search_buffers(conn: &rusqlite::Connection, query: &str) -> (r: Result<
    Vec<SearchResult>,
    String,
>)
    ensures
        is_blank(query@) ==> (r matches Ok(v) && v@.len() == 0),
        r matches Ok(v) ==> v@.len() <= 20,
{
    map_db_error(queries::search_buffers(conn, query, 20), "Failed to search buffers")
}

/// Deletes a buffer and returns the id to select next, chosen by sidebar
/// order before the delete runs. A returned id never equals the deleted one.
pub fn delete_buffer(conn: &rusqlite::Connection, id: &str) -> (r: Result<Option<String>, String>)
    ensures
        r matches Ok(Some(next)) ==> next@ != id@,
{
    let next_id = match map_db_error(
        queries::get_next_buffer_id(conn, id),
        "Failed to get next buffer",
    ) {
        Ok(n) => n,
        Err(m) => {
            return Err(m);
        },
    };
    match map_db_error(queries::delete_buffer(conn, id), "Failed to delete buffer") {
        Ok(_) => Ok(next_id),
        Err(m) => Err(m),
    }
}

/// Flips a buffer's pin flag and returns the stored post-flip state.
pub fn toggle_pin(conn: &rusqlite::Connection, id: &str) -> (r: Result<bool, String>) {
    map_db_error(queries::toggle_pin(conn, id), "Failed to toggle pin")
}

/// Reassigns manual order so that `ids` become positions `0, 1, 2, ...`, in
/// one transaction: a partial reorder is never observable.
pub fn reorder_buffers(conn: &mut rusqlite::Connection, ids: &Vec<String>) -> (r: Result<
    (),
    String,
>) {
    if (ids.len() as u64) > 0x7fff_ffff_ffff_ffffu64 {
        return Err("Failed to reorder buffers: too many buffers".to_owned());
    }
    map_db_error(queries::reorder_buffers(conn, ids), "Failed to reorder buffers")
}

/// Deletes every non-archived buffer whose stored content trims to nothing;
/// returns the count removed.
pub fn cleanup_empty_buffers(conn: &rusqlite::Connection) -> (r: Result<usize, String>) {
    map_db_error(queries::delete_empty_buffers(conn), "Failed to cleanup empty buffers")
}

/// The settings record: stored rows laid over the hard-coded defaults.
pub fn get_settings(conn: &rusqlite::Connection) -> (r: Result<AppSettings, String>) {
    map_db_error(queries::get_settings(conn), "Failed to get settings")
}

/// Stores one settings key.
pub fn set_setting(conn: &rusqlite::Connection, key: &str, value: &str) -> (r: Result<
    (),
    String,
>) {
    map_db_error(queries::set_setting(conn, key, value), "Failed to save setting")
}

} // verus!
