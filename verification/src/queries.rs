//! The query layer: every buffer and settings operation, run against a
//! connection supplied by the caller. Size validation, title/preview
//! derivation, query sanitisation and ordering decisions are verified; the
//! statements themselves run behind the trusted driver wrappers.
use vstd::prelude::*;
use vstd::string::StringSliceAdditionalSpecFns;
use vstd::utf8::encode_utf8;
use crate::errors::StoreError;
use crate::fts::build_fts_query;
use crate::num::parse_i32;
use crate::num::parse_i32_spec;
use crate::sqlite;
use crate::text::extract_title_preview;
use crate::text::is_blank;
use crate::text::preview_of;
use crate::text::str_is_blank;
use crate::text::title_of;

verus! {

broadcast use vstd::string::group_string_axioms;

/// Largest accepted content size, in bytes: ten mebibytes.
pub const MAX_CONTENT_SIZE: usize = 10485760;

/// The byte length of a text, as UTF-8 stores it.
pub open spec fn byte_len(s: Seq<char>) -> nat {
    encode_utf8(s).len()
}

/// Summary of a buffer for sidebar display.
#[derive(Debug)]
pub struct BufferSummary {
    pub id: String,
    pub title: String,
    pub preview: String,
    pub updated_at: i64,
    pub is_pinned: bool,
}

/// Search result with highlighted snippet.
#[derive(Debug)]
pub struct SearchResult {
    pub id: String,
    pub snippet: String,
    pub updated_at: i64,
}

/// Full buffer content.
#[derive(Debug)]
pub struct Buffer {
    pub id: String,
    pub content: String,
    pub created_at: i64,
    pub updated_at: i64,
    pub accessed_at: i64,
    pub is_archived: bool,
    pub is_pinned: bool,
}

/// One raw sidebar row as the store returns it.
#[derive(Debug)]
pub struct SidebarRow {
    pub id: String,
    pub content: String,
    pub updated_at: i64,
    pub is_pinned: bool,
}

/// Builds the summaries for the fetched rows, row for row: each keeps its
/// row's id, pin flag and `updated_at`, and its title and preview are derived
/// from that row's content, exactly as `title_of` and `preview_of` state.
#[verifier::loop_isolation(false)]
pub fn summarize_rows(rows: &Vec<SidebarRow>) -> (r: Vec<BufferSummary>)
    ensures
        r@.len() == rows@.len(),
        forall|k: int|
            0 <= k < rows@.len() ==> ((#[trigger] r@[k]).id@ == rows@[k].id@ && r@[k].title@
                == title_of(rows@[k].content@) && r@[k].preview@ == preview_of(
                rows@[k].content@,
            ) && r@[k].updated_at == rows@[k].updated_at && r@[k].is_pinned
                == rows@[k].is_pinned),
{
    let mut out: Vec<BufferSummary> = Vec::new();
    let mut i: usize = 0;
    while i < rows.len()
        invariant
            i <= rows@.len(),
            out@.len() == i,
            forall|k: int|
                0 <= k < i ==> ((#[trigger] out@[k]).id@ == rows@[k].id@ && out@[k].title@
                    == title_of(rows@[k].content@) && out@[k].preview@ == preview_of(
                    rows@[k].content@,
                ) && out@[k].updated_at == rows@[k].updated_at && out@[k].is_pinned
                    == rows@[k].is_pinned),
        decreases rows@.len() - i,
    {
        let row = &rows[i];
        let (title, preview) = extract_title_preview(row.content.as_str());
        out.push(
            BufferSummary {
                id: row.id.clone(),
                title,
                preview,
                updated_at: row.updated_at,
                is_pinned: row.is_pinned,
            },
        );
        i = i + 1;
    }
    out
}

/// Sidebar page: non-archived buffers, pinned first, then manual order, then
/// most recently accessed; the fetched rows pass through `summarize_rows`,
/// which fixes every summary's derivation from its own row.
pub fn get_sidebar_buffers(conn: &rusqlite::Connection, limit: usize) -> (r: Result<
    Vec<BufferSummary>,
    rusqlite::Error,
>)
    ensures
        r matches Ok(v) ==> v@.len() <= limit,
        r matches Ok(v) ==> forall|a: int, b: int|
            #![trigger v@[a].is_pinned, v@[b].is_pinned]
            0 <= a <= b < v@.len() && v@[b].is_pinned ==> v@[a].is_pinned,
{
    let lim: i64 = if (limit as u64) > 0x7fff_ffff_ffff_ffffu64 {
        i64::MAX
    } else {
        limit as i64
    };
    let rows = match sqlite::query_sidebar_rows(conn, lim) {
        Ok(rs) => rs,
        Err(e) => {
            return Err(e);
        },
    };
    let out = summarize_rows(&rows);
    proof {
        assert forall|a: int, b: int|
            #![trigger out@[a].is_pinned, out@[b].is_pinned]
            0 <= a <= b < out@.len() && out@[b].is_pinned implies out@[a].is_pinned by {
            assert(rows@[b].is_pinned ==> rows@[a].is_pinned);
        }
    }
    Ok(out)
}

/// Full-text search. A blank query gives an empty result without touching the
/// store; any other query is sanitised by `build_fts_query` and run against
/// the index, restricted to non-archived buffers in relevance order. A match
/// expression the index still rejects degrades to an empty result; contention
/// and other storage failures propagate.
pub fn search_buffers(conn: &rusqlite::Connection, query: &str, limit: usize) -> (r: Result<
    Vec<SearchResult>,
    rusqlite::Error,
>)
    ensures
        is_blank(query@) ==> (r matches Ok(v) && v@.len() == 0),
        r matches Ok(v) ==> v@.len() <= limit,
{
    if str_is_blank(query) {
        return Ok(Vec::new());
    }
    let fq = build_fts_query(query);
    let lim: i64 = if (limit as u64) > 0x7fff_ffff_ffff_ffffu64 {
        i64::MAX
    } else {
        limit as i64
    };
    match sqlite::query_search_rows(conn, fq.as_str(), lim) {
        Ok(v) => Ok(v),
        Err(e) => {
            if sqlite::is_statement_error(&e) {
                // Search is advisory: a match expression the index cannot
                // parse degrades to an empty result instead of an error.
                Ok(Vec::new())
            } else {
                Err(e)
            }
        },
    }
}

/// Full buffer by id; `None` when absent.
pub fn get_buffer_content(conn: &rusqlite::Connection, id: &str) -> (r: Result<
    Option<Buffer>,
    rusqlite::Error,
>) {
    sqlite::query_buffer_row(conn, id)
}

/// The manual-order slot a fresh buffer takes: one below the smallest
/// existing `sort_order` so it floats to the top, `-1` when none exists or
/// the minimum could not be read, guarded at the type's floor.
pub fn next_sort_order(min_existing: Option<i64>) -> (r: i64)
    ensures
        min_existing matches Some(m) ==> r as int == (if m == i64::MIN {
            m as int
        } else {
            m - 1
        }),
        min_existing is None ==> r == -1,
{
    match min_existing {
        Some(m) => if m == i64::MIN {
            m
        } else {
            m - 1
        },
        None => -1,
    }
}

/// Creates a buffer with `sort_order` chosen by `next_sort_order`, so it
/// floats to the top of manual order. Content over `MAX_CONTENT_SIZE`
/// bytes is rejected before any write, with the actual size reported.
pub fn create_buffer(conn: &rusqlite::Connection, id: &str, content: &str, timestamp: i64) -> (r:
    Result<(), StoreError>)
    ensures
        byte_len(content@) > MAX_CONTENT_SIZE ==> (r matches Err(e) && e matches
            StoreError::ContentTooLarge { size } && size == byte_len(content@)),
        r matches Err(e) ==> (e matches StoreError::ContentTooLarge { size } ==> (size
            == byte_len(content@) && byte_len(content@) > MAX_CONTENT_SIZE)),
{
    let size = content.as_bytes().len();
    proof {
        assert(content.spec_bytes() == encode_utf8(content@));
        assert(size == byte_len(content@));
    }
    if size > MAX_CONTENT_SIZE {
        return Err(StoreError::ContentTooLarge { size });
    }
    let min_existing = match sqlite::query_min_sort_order(conn) {
        Ok(o) => o,
        Err(_) => None,
    };
    let sort_order = next_sort_order(min_existing);
    match sqlite::insert_buffer_row(conn, id, content, timestamp, sort_order) {
        Ok(_) => Ok(()),
        Err(e) => Err(StoreError::Db(e)),
    }
}

/// Saves new content for a buffer and bumps `updated_at`; neither
/// `accessed_at` nor `sort_order` moves. The same size validation as
/// `create_buffer`, rejected before any write. `Ok(true)` means the row
/// existed.
pub fn update_buffer_content(
    conn: &rusqlite::Connection,
    id: &str,
    content: &str,
    timestamp: i64,
) -> (r: Result<bool, StoreError>)
    ensures
        byte_len(content@) > MAX_CONTENT_SIZE ==> (r matches Err(e) && e matches
            StoreError::ContentTooLarge { size } && size == byte_len(content@)),
        r matches Err(e) ==> (e matches StoreError::ContentTooLarge { size } ==> (size
            == byte_len(content@) && byte_len(content@) > MAX_CONTENT_SIZE)),
{
    let size = content.as_bytes().len();
    proof {
        assert(content.spec_bytes() == encode_utf8(content@));
        assert(size == byte_len(content@));
    }
    if size > MAX_CONTENT_SIZE {
        return Err(StoreError::ContentTooLarge { size });
    }
    match sqlite::update_content_row(conn, id, content, timestamp) {
        Ok(n) => Ok(n > 0),
        Err(e) => Err(StoreError::Db(e)),
    }
}

/// Records that a buffer was opened: sets `accessed_at` alone. `Ok(true)`
/// means the row existed.
pub fn touch_buffer(conn: &rusqlite::Connection, id: &str, timestamp: i64) -> (r: Result<
    bool,
    rusqlite::Error,
>) {
    match sqlite::touch_row(conn, id, timestamp) {
        Ok(n) => Ok(n > 0),
        Err(e) => Err(e),
    }
}

/// The buffer to select once `current_id` is deleted: the first remaining
/// non-archived buffer in sidebar order. A returned id never equals
/// `current_id`.
pub fn get_next_buffer_id(conn: &rusqlite::Connection, current_id: &str) -> (r: Result<
    Option<String>,
    rusqlite::Error,
>)
    ensures
        r matches Ok(Some(id)) ==> id@ != current_id@,
{
    sqlite::query_next_id(conn, current_id)
}

/// Permanently deletes a buffer; its index entry goes with it through the
/// schema's triggers. `Ok(true)` means the row existed.
pub fn delete_buffer(conn: &rusqlite::Connection, id: &str) -> (r: Result<
    bool,
    rusqlite::Error,
>) {
    match sqlite::delete_row(conn, id) {
        Ok(n) => Ok(n > 0),
        Err(e) => Err(e),
    }
}

/// Flips the pin flag and returns the stored post-flip state.
pub fn toggle_pin(conn: &rusqlite::Connection, id: &str) -> (r: Result<bool, rusqlite::Error>) {
    match sqlite::flip_pin_row(conn, id) {
        Ok(_) => sqlite::query_pin_state(conn, id),
        Err(e) => Err(e),
    }
}

/// Assigns `sort_order` = position for every id in `ids`, inside one
/// transaction: a partial reorder is never left behind.
#[verifier::loop_isolation(false)]
pub fn reorder_buffers(conn: &mut rusqlite::Connection, ids: &Vec<String>) -> (r: Result<
    (),
    rusqlite::Error,
>)
    requires
        ids@.len() <= 0x7fff_ffff_ffff_ffff,
{
    let tx = match sqlite::begin_transaction(conn) {
        Ok(t) => t,
        Err(e) => {
            return Err(e);
        },
    };
    let mut i: usize = 0;
    while i < ids.len()
        invariant
            i <= ids@.len(),
        decreases ids@.len() - i,
    {
        let id = &ids[i];
        match sqlite::tx_set_sort_order(&tx, i as i64, id.as_str()) {
            Ok(_) => {},
            Err(e) => {
                return Err(e);
            },
        }
        i = i + 1;
    }
    sqlite::commit_transaction(tx)
}

/// The ids of the rows whose content is blank, in row order.
pub open spec fn blank_ids_of(rows: Seq<(Seq<char>, Seq<char>)>) -> Seq<Seq<char>>
    decreases rows.len(),
{
    if rows.len() == 0 {
        Seq::empty()
    } else {
        (if is_blank(rows[0].1) {
            seq![rows[0].0]
        } else {
            Seq::empty()
        }) + blank_ids_of(rows.drop_first())
    }
}

/// Picks, from fetched (id, content) rows, the ids of the buffers whose
/// content is blank: exactly `blank_ids_of`.
#[verifier::loop_isolation(false)]
pub fn select_blank_ids(rows: &Vec<(String, String)>) -> (r: Vec<String>)
    ensures
        r.deep_view() == blank_ids_of(rows_view(rows@)),
{
    let ghost dv = rows_view(rows@);
    let mut r: Vec<String> = Vec::new();
    let mut i: usize = 0;
    proof {
        assert(dv.skip(0) =~= dv);
        assert(r.deep_view() + blank_ids_of(dv) =~= blank_ids_of(dv));
    }
    while i < rows.len()
        invariant
            i <= rows@.len(),
            blank_ids_of(dv) == r.deep_view() + blank_ids_of(dv.skip(i as int)),
        decreases rows@.len() - i,
    {
        let row = &rows[i];
        proof {
            assert(dv.skip(i as int)[0] == (rows@[i as int].0@, rows@[i as int].1@));
            assert(dv.skip(i as int).drop_first() =~= dv.skip(i + 1));
        }
        if str_is_blank(row.1.as_str()) {
            let ghost before = r.deep_view();
            r.push(row.0.clone());
            proof {
                assert(r.deep_view() =~= before + seq![dv[i as int].0]);
                assert((before + seq![dv[i as int].0]) + blank_ids_of(dv.skip(i + 1))
                    =~= before + (seq![dv[i as int].0] + blank_ids_of(dv.skip(i + 1))));
            }
        }
        i = i + 1;
    }
    proof {
        assert(dv.skip(rows@.len() as int) =~= Seq::<(Seq<char>, Seq<char>)>::empty());
        assert(r.deep_view() + blank_ids_of(Seq::empty()) =~= r.deep_view());
    }
    r
}

/// Deletes every non-archived buffer whose content is blank — empty or white
/// space only, the same test the title derivation uses — and returns how many
/// went. The deletes stand alone, so the operation is idempotent and a retry
/// after a failure finishes the job.
#[verifier::loop_isolation(false)]
pub fn delete_empty_buffers(conn: &rusqlite::Connection) -> (r: Result<usize, rusqlite::Error>) {
    let rows = match sqlite::query_non_archived_contents(conn) {
        Ok(rs) => rs,
        Err(e) => {
            return Err(e);
        },
    };
    let ids = select_blank_ids(&rows);
    let mut removed: usize = 0;
    let mut i: usize = 0;
    while i < ids.len()
        invariant
            removed <= i <= ids@.len(),
        decreases ids@.len() - i,
    {
        let id = &ids[i];
        match sqlite::delete_row(conn, id.as_str()) {
            Ok(n) => {
                if n > 0 {
                    removed = removed + 1;
                }
            },
            Err(e) => {
                return Err(e);
            },
        }
        i = i + 1;
    }
    Ok(removed)
}

/// The typed application settings. `line_height` keeps the stored text; a
/// consumer parses it as a decimal number, falling back to the default.
#[derive(Debug)]
pub struct AppSettings {
    pub font_family: String,
    pub font_size: i32,
    pub line_height: String,
    pub sidebar_width: i32,
    pub sidebar_collapsed: bool,
    pub vim_mode: bool,
    pub always_on_top: bool,
}

/// The mathematical shape of a settings record.
#[verifier::ext_equal]
pub struct AppSettingsView {
    pub font_family: Seq<char>,
    pub font_size: i32,
    pub line_height: Seq<char>,
    pub sidebar_width: i32,
    pub sidebar_collapsed: bool,
    pub vim_mode: bool,
    pub always_on_top: bool,
}

impl View for AppSettings {
    type V = AppSettingsView;

    open spec fn view(&self) -> AppSettingsView {
        AppSettingsView {
            font_family: self.font_family@,
            font_size: self.font_size,
            line_height: self.line_height@,
            sidebar_width: self.sidebar_width,
            sidebar_collapsed: self.sidebar_collapsed,
            vim_mode: self.vim_mode,
            always_on_top: self.always_on_top,
        }
    }
}

/// The hard-coded defaults every missing or unparsable key falls back to.
pub open spec fn default_settings() -> AppSettingsView {
    AppSettingsView {
        font_family: "JetBrains Mono"@,
        font_size: 13,
        line_height: "1.5"@,
        sidebar_width: 256,
        sidebar_collapsed: false,
        vim_mode: false,
        always_on_top: false,
    }
}

/// A stored number, or the field's default where it does not parse.
pub open spec fn int_setting(value: Seq<char>, default: i32) -> i32 {
    match parse_i32_spec(value) {
        Some(v) => v,
        None => default,
    }
}

/// One stored key/value pair laid over a settings record; unknown keys change
/// nothing.
pub open spec fn apply_setting(s: AppSettingsView, key: Seq<char>, value: Seq<char>)
    -> AppSettingsView {
    if key == "font_family"@ {
        AppSettingsView { font_family: value, ..s }
    } else if key == "font_size"@ {
        AppSettingsView { font_size: int_setting(value, 13), ..s }
    } else if key == "line_height"@ {
        AppSettingsView { line_height: value, ..s }
    } else if key == "sidebar_width"@ {
        AppSettingsView { sidebar_width: int_setting(value, 256), ..s }
    } else if key == "sidebar_collapsed"@ {
        AppSettingsView { sidebar_collapsed: value == "true"@, ..s }
    } else if key == "vim_mode"@ {
        AppSettingsView { vim_mode: value == "true"@, ..s }
    } else if key == "always_on_top"@ {
        AppSettingsView { always_on_top: value == "true"@, ..s }
    } else {
        s
    }
}

/// The views of stored key/value rows.
pub open spec fn rows_view(rows: Seq<(String, String)>) -> Seq<(Seq<char>, Seq<char>)> {
    rows.map_values(|p: (String, String)| (p.0@, p.1@))
}

/// The rows laid over `acc`, first row first: later rows win on equal keys.
pub open spec fn settings_from_rows(rows: Seq<(Seq<char>, Seq<char>)>, acc: AppSettingsView)
    -> AppSettingsView
    decreases rows.len(),
{
    if rows.len() == 0 {
        acc
    } else {
        settings_from_rows(rows.drop_first(), apply_setting(acc, rows[0].0, rows[0].1))
    }
}

/// The settings record the stored rows denote: the rows laid over the
/// defaults.
pub open spec fn settings_of(rows: Seq<(Seq<char>, Seq<char>)>) -> AppSettingsView {
    settings_from_rows(rows, default_settings())
}

/// Law: with no stored rows, every field keeps its typed default.
pub proof fn lemma_settings_defaults_when_absent()
    ensures
        settings_of(Seq::empty()) == default_settings(),
{
}

/// Law: a stored number that does not parse falls back to that field's
/// default, and touches no other field.
pub proof fn lemma_unparsable_number_falls_back(s: AppSettingsView, value: Seq<char>)
    requires
        parse_i32_spec(value) is None,
    ensures
        apply_setting(s, "font_size"@, value) == (AppSettingsView { font_size: 13, ..s }),
        apply_setting(s, "sidebar_width"@, value) == (AppSettingsView {
            sidebar_width: 256,
            ..s
        }),
{
    reveal_strlit("font_family");
    reveal_strlit("font_size");
    reveal_strlit("line_height");
    reveal_strlit("sidebar_width");
    assert("font_size"@.len() == 9);
    assert("font_family"@.len() == 11);
    assert("sidebar_width"@.len() == 13);
    assert(apply_setting(s, "font_size"@, value) =~= (AppSettingsView { font_size: 13, ..s }));
    assert(apply_setting(s, "sidebar_width"@, value) =~= (AppSettingsView {
        sidebar_width: 256,
        ..s
    }));
}

impl Default for AppSettings {
    /// The defaults alone, exactly `default_settings`.
    fn default() -> (r: AppSettings)
        ensures
            r@ == default_settings(),
    {
        let r = AppSettings {
            font_family: "JetBrains Mono".to_owned(),
            font_size: 13,
            line_height: "1.5".to_owned(),
            sidebar_width: 256,
            sidebar_collapsed: false,
            vim_mode: false,
            always_on_top: false,
        };
        proof {
            assert(r@ =~= default_settings());
        }
        r
    }
}

fn apply_setting_exec(s: AppSettings, key: &String, value: &String) -> (r: AppSettings)
    ensures
        r@ == apply_setting(s@, key@, value@),
{
    let mut out = s;
    if *key == "font_family".to_owned() {
        out.font_family = value.clone();
    } else if *key == "font_size".to_owned() {
        out.font_size = match parse_i32(value.as_str()) {
            Some(v) => v,
            None => 13,
        };
    } else if *key == "line_height".to_owned() {
        out.line_height = value.clone();
    } else if *key == "sidebar_width".to_owned() {
        out.sidebar_width = match parse_i32(value.as_str()) {
            Some(v) => v,
            None => 256,
        };
    } else if *key == "sidebar_collapsed".to_owned() {
        out.sidebar_collapsed = *value == "true".to_owned();
    } else if *key == "vim_mode".to_owned() {
        out.vim_mode = *value == "true".to_owned();
    } else if *key == "always_on_top".to_owned() {
        out.always_on_top = *value == "true".to_owned();
    }
    proof {
        assert(out@ =~= apply_setting(s@, key@, value@));
    }
    out
}

/// Lays the stored rows over the defaults, first row first; a row whose value
/// does not parse falls back to that field's default. Exactly `settings_of`.
#[verifier::loop_isolation(false)]
pub fn settings_from_stored_rows(rows: &Vec<(String, String)>) -> (r: AppSettings)
    ensures
        r@ == settings_of(rows_view(rows@)),
{
    let ghost dv = rows_view(rows@);
    let mut acc = AppSettings::default();
    let mut i: usize = 0;
    proof {
        assert(dv.skip(0) =~= dv);
    }
    while i < rows.len()
        invariant
            i <= rows@.len(),
            settings_of(dv) == settings_from_rows(dv.skip(i as int), acc@),
        decreases rows@.len() - i,
    {
        let row = &rows[i];
        proof {
            assert(dv.skip(i as int)[0] == (rows@[i as int].0@, rows@[i as int].1@));
            assert(dv.skip(i as int).drop_first() =~= dv.skip(i + 1));
        }
        acc = apply_setting_exec(acc, &row.0, &row.1);
        i = i + 1;
    }
    proof {
        assert(dv.skip(rows@.len() as int) =~= Seq::<(Seq<char>, Seq<char>)>::empty());
    }
    acc
}

/// Reads every stored settings row and lays it over the defaults through
/// `settings_from_stored_rows`, which fixes the whole overlay.
pub fn get_settings(conn: &rusqlite::Connection) -> (r: Result<AppSettings, rusqlite::Error>) {
    match sqlite::query_settings_rows(conn) {
        Ok(rows) => Ok(settings_from_stored_rows(&rows)),
        Err(e) => Err(e),
    }
}

/// Inserts or replaces one settings key.
pub fn set_setting(conn: &rusqlite::Connection, key: &str, value: &str) -> (r: Result<
    (),
    rusqlite::Error,
>) {
    match sqlite::upsert_setting_row(conn, key, value) {
        Ok(_) => Ok(()),
        Err(e) => Err(e),
    }
}

} // verus!
