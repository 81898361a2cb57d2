//! The history store: the statements that keep speed-test results and the
//! settings in an SQLite database, and the reading of what comes back.
//!
//! This module decides what is asked of the database and what the answers
//! mean. The caller owns the connection: it runs each `Statement` and hands
//! the rows back. Every statement binds its values, none is spliced into the
//! SQL text.

use crate::fixed::{rendered, Fixed};
use crate::text::{append, append_str, chars_of, render_i64, signed_digits, string_of};
use crate::timestamp::{
    clamped_millis, rfc3339_instant, rfc3339_text, Timestamp, MAX_MILLIS, MILLIS_PER_DAY, MIN_MILLIS,
};
use vstd::prelude::*;

verus! {

/// The smallest page size of a history query.
pub const MIN_PAGE_SIZE: u32 = 1;

/// The largest page size of a history query.
pub const MAX_PAGE_SIZE: u32 = 200;

/// Creates the table of the settings: one row, whose id is 1.
pub const CREATE_SETTINGS_SQL: &'static str =
    "CREATE TABLE IF NOT EXISTS settings (id INTEGER PRIMARY KEY CHECK (id = 1), json TEXT NOT NULL)";

/// Creates the table of the speed tests, keyed by the task id.
pub const CREATE_SPEED_TESTS_SQL: &'static str =
    "CREATE TABLE IF NOT EXISTS speed_tests (task_id TEXT PRIMARY KEY, endpoint TEXT NOT NULL, download_mbps REAL NOT NULL, upload_mbps REAL, latency_ms REAL, jitter_ms REAL, loss_pct REAL, started_at TEXT NOT NULL, duration_ms INTEGER NOT NULL)";

/// Reads the settings.
pub const LOAD_SETTINGS_SQL: &'static str = "SELECT json FROM settings WHERE id = 1";

/// Writes the settings, over what was there.
pub const SAVE_SETTINGS_SQL: &'static str =
    "INSERT INTO settings (id, json) VALUES (1, ?1) ON CONFLICT(id) DO UPDATE SET json = excluded.json";

/// Writes one speed test, over any earlier one with the same task id.
pub const INSERT_SQL: &'static str =
    "INSERT OR REPLACE INTO speed_tests (task_id, endpoint, download_mbps, upload_mbps, latency_ms, jitter_ms, loss_pct, started_at, duration_ms) VALUES (?1, ?2, ?3, ?4, ?5, ?6, ?7, ?8, ?9)";

/// Counts speed tests; a range clause may follow.
pub const COUNT_SQL: &'static str = "SELECT COUNT(1) as total FROM speed_tests";

/// Reads speed tests; a range clause, an order and a page may follow.
pub const SELECT_SQL: &'static str =
    "SELECT task_id, endpoint, download_mbps, upload_mbps, latency_ms, jitter_ms, loss_pct, started_at, duration_ms FROM speed_tests";

/// Restricts to the tests that started at or after the bound value.
pub const FROM_CLAUSE: &'static str = " WHERE started_at >= ?";

/// Restricts to the tests that started at or before the bound value.
pub const TO_CLAUSE: &'static str = " WHERE started_at <= ?";

/// Restricts to the tests that started between the two bound values.
pub const FROM_TO_CLAUSE: &'static str = " WHERE started_at >= ? AND started_at <= ?";

/// Puts the most recent test first.
pub const ORDER_SQL: &'static str = " ORDER BY started_at DESC";

/// Cuts one page out of the result.
pub const PAGE_SQL: &'static str = " LIMIT ? OFFSET ?";

/// Deletes the speed tests that started before the bound value.
pub const PRUNE_SQL: &'static str = "DELETE FROM speed_tests WHERE started_at < ?";

/// The first line of an exported file.
pub const CSV_HEADER: &'static str =
    "task_id,endpoint,download_mbps,upload_mbps,latency_ms,jitter_ms,loss_pct,started_at,duration_ms\n";

/// One completed speed test.
#[derive(Clone, Debug, PartialEq, Eq)]
pub struct SpeedTestResult {
    /// The key of the record.
    pub task_id: String,
    pub endpoint: String,
    pub download_mbps: Fixed,
    pub upload_mbps: Option<Fixed>,
    pub latency_ms: Option<Fixed>,
    pub jitter_ms: Option<Fixed>,
    pub loss_pct: Option<Fixed>,
    pub started_at: Timestamp,
    pub duration_ms: i64,
}

/// A speed test as plain data.
pub struct Record {
    pub task_id: Seq<char>,
    pub endpoint: Seq<char>,
    pub download_mbps: Fixed,
    pub upload_mbps: Option<Fixed>,
    pub latency_ms: Option<Fixed>,
    pub jitter_ms: Option<Fixed>,
    pub loss_pct: Option<Fixed>,
    pub started_at: Timestamp,
    pub duration_ms: i64,
}

impl View for SpeedTestResult {
    type V = Record;

    open spec fn view(&self) -> Record {
        Record {
            task_id: self.task_id@,
            endpoint: self.endpoint@,
            download_mbps: self.download_mbps,
            upload_mbps: self.upload_mbps,
            latency_ms: self.latency_ms,
            jitter_ms: self.jitter_ms,
            loss_pct: self.loss_pct,
            started_at: self.started_at,
            duration_ms: self.duration_ms,
        }
    }
}

/// One row of the table of speed tests, as it was stored.
#[derive(Clone, Debug, PartialEq, Eq)]
pub struct HistoryRow {
    pub task_id: String,
    pub endpoint: String,
    pub download_mbps: Fixed,
    pub upload_mbps: Option<Fixed>,
    pub latency_ms: Option<Fixed>,
    pub jitter_ms: Option<Fixed>,
    pub loss_pct: Option<Fixed>,
    /// The stored text of the start time.
    pub started_at: String,
    pub duration_ms: i64,
}

/// A stored row as plain data.
pub struct StoredRow {
    pub task_id: Seq<char>,
    pub endpoint: Seq<char>,
    pub download_mbps: Fixed,
    pub upload_mbps: Option<Fixed>,
    pub latency_ms: Option<Fixed>,
    pub jitter_ms: Option<Fixed>,
    pub loss_pct: Option<Fixed>,
    pub started_at: Seq<char>,
    pub duration_ms: i64,
}

impl View for HistoryRow {
    type V = StoredRow;

    open spec fn view(&self) -> StoredRow {
        StoredRow {
            task_id: self.task_id@,
            endpoint: self.endpoint@,
            download_mbps: self.download_mbps,
            upload_mbps: self.upload_mbps,
            latency_ms: self.latency_ms,
            jitter_ms: self.jitter_ms,
            loss_pct: self.loss_pct,
            started_at: self.started_at@,
            duration_ms: self.duration_ms,
        }
    }
}

/// Which page of the history is asked for, and of which time range.
#[derive(Clone, Copy, Debug, PartialEq, Eq, Structural)]
pub struct HistoryFilter {
    /// The number of the page; the first page is 1, and 0 also means the first.
    pub page: u32,
    /// The number of records on a page; clamped to `MIN_PAGE_SIZE..=MAX_PAGE_SIZE`.
    pub page_size: u32,
    /// Only tests that started at or after this instant.
    pub from: Option<Timestamp>,
    /// Only tests that started at or before this instant.
    pub to: Option<Timestamp>,
}

/// One page of the history.
#[derive(Clone, Debug, PartialEq, Eq)]
pub struct HistoryPage {
    /// How many records match the filter, over all pages.
    pub total: i64,
    /// The records of this page, the most recent first.
    pub items: Vec<SpeedTestResult>,
}

/// A time range; both ends are inclusive, an absent end is open.
#[derive(Clone, Copy, Debug, PartialEq, Eq, Structural)]
pub struct TimeRange {
    pub from: Option<Timestamp>,
    pub to: Option<Timestamp>,
}

/// Where an export went and how many records it holds.
#[derive(Clone, Debug, PartialEq, Eq)]
pub struct ExportResult {
    pub path: String,
    pub rows: u64,
}

/// An export that is ready to be written.
#[derive(Clone, Debug, PartialEq, Eq)]
pub struct CsvExport {
    /// The whole content of the file.
    pub content: String,
    pub result: ExportResult,
}

/// A value that is bound to a placeholder of a statement.
#[derive(Clone, Debug, PartialEq, Eq)]
pub enum SqlValue {
    Text(String),
    Real(Fixed),
    Integer(i64),
    Null,
}

/// A bound value as plain data.
pub enum Bound {
    Text(Seq<char>),
    Real(Fixed),
    Integer(i64),
    Null,
}

impl View for SqlValue {
    type V = Bound;

    open spec fn view(&self) -> Bound {
        match self {
            SqlValue::Text(s) => Bound::Text(s@),
            SqlValue::Real(x) => Bound::Real(*x),
            SqlValue::Integer(n) => Bound::Integer(*n),
            SqlValue::Null => Bound::Null,
        }
    }
}

/// SQL text and the values for its placeholders, in the order of the placeholders.
#[derive(Clone, Debug, PartialEq, Eq)]
pub struct Statement {
    pub sql: String,
    pub binds: Vec<SqlValue>,
}

/// A statement as plain data.
pub struct Query {
    pub sql: Seq<char>,
    pub binds: Seq<Bound>,
}

impl View for Statement {
    type V = Query;

    open spec fn view(&self) -> Query {
        Query { sql: self.sql@, binds: bounds(self.binds@) }
    }
}

/// The two statements of a history query: the count of all matching records
/// and the records of one page. Both restrict the records in the same way.
#[derive(Clone, Debug, PartialEq, Eq)]
pub struct HistoryQuery {
    pub count: Statement,
    pub items: Statement,
}

/// The bound values as plain data.
pub open spec fn bounds(v: Seq<SqlValue>) -> Seq<Bound> {
    Seq::new(v.len(), |i: int| v[i]@)
}

/// The records as plain data.
pub open spec fn records(v: Seq<SpeedTestResult>) -> Seq<Record> {
    Seq::new(v.len(), |i: int| v[i]@)
}

/// The value that is bound for a number that may be absent.
pub open spec fn bound_number(x: Option<Fixed>) -> Bound {
    match x {
        Some(v) => Bound::Real(v),
        None => Bound::Null,
    }
}

/// The value that is bound for an instant: its RFC 3339 text.
pub open spec fn bound_instant(t: Timestamp) -> Bound {
    Bound::Text(rfc3339_text(t@ as i64))
}

/// The nine values of a record, in the order of the columns.
pub open spec fn insert_binds(r: Record) -> Seq<Bound> {
    seq![
        Bound::Text(r.task_id),
        Bound::Text(r.endpoint),
        Bound::Real(r.download_mbps),
        bound_number(r.upload_mbps),
        bound_number(r.latency_ms),
        bound_number(r.jitter_ms),
        bound_number(r.loss_pct),
        bound_instant(r.started_at),
        Bound::Integer(r.duration_ms),
    ]
}

/// The clause that restricts a statement to a time range.
pub open spec fn range_clause(from: Option<Timestamp>, to: Option<Timestamp>) -> Seq<char> {
    if from is Some && to is Some {
        FROM_TO_CLAUSE@
    } else if from is Some {
        FROM_CLAUSE@
    } else if to is Some {
        TO_CLAUSE@
    } else {
        Seq::empty()
    }
}

/// The values for the placeholders of the range clause.
pub open spec fn range_binds(from: Option<Timestamp>, to: Option<Timestamp>) -> Seq<Bound> {
    (match from {
        Some(t) => seq![bound_instant(t)],
        None => Seq::empty(),
    }) + (match to {
        Some(t) => seq![bound_instant(t)],
        None => Seq::empty(),
    })
}

/// The number of records on a page.
pub open spec fn page_limit(page_size: u32) -> i64 {
    if page_size < MIN_PAGE_SIZE {
        MIN_PAGE_SIZE as i64
    } else if page_size > MAX_PAGE_SIZE {
        MAX_PAGE_SIZE as i64
    } else {
        page_size as i64
    }
}

/// The number of records that lie before a page.
pub open spec fn page_offset(page: u32, page_size: u32) -> i64 {
    if page <= 1 {
        0
    } else {
        ((page - 1) * page_limit(page_size)) as i64
    }
}

/// The statement that counts the records of a time range.
pub open spec fn count_query(from: Option<Timestamp>, to: Option<Timestamp>) -> Query {
    Query { sql: COUNT_SQL@ + range_clause(from, to), binds: range_binds(from, to) }
}

/// The statement that reads one page of the records of a time range.
pub open spec fn items_query(filter: HistoryFilter) -> Query {
    Query {
        sql: SELECT_SQL@ + range_clause(filter.from, filter.to) + ORDER_SQL@ + PAGE_SQL@,
        binds: range_binds(filter.from, filter.to) + seq![
            Bound::Integer(page_limit(filter.page_size)),
            Bound::Integer(page_offset(filter.page, filter.page_size)),
        ],
    }
}

/// The statement that reads every record of a time range.
pub open spec fn export_query(range: TimeRange) -> Query {
    Query {
        sql: SELECT_SQL@ + range_clause(range.from, range.to) + ORDER_SQL@,
        binds: range_binds(range.from, range.to),
    }
}

/// The number of days that are kept when `keep_days` is asked for: at least one.
pub open spec fn kept_days(keep_days: i64) -> int {
    if keep_days < 1 {
        1
    } else {
        keep_days as int
    }
}

/// The record that a stored row stands for. A start time that cannot be read
/// is replaced by `now`.
pub open spec fn decoded(row: StoredRow, now: Timestamp) -> Record {
    Record {
        task_id: row.task_id,
        endpoint: row.endpoint,
        download_mbps: row.download_mbps,
        upload_mbps: row.upload_mbps,
        latency_ms: row.latency_ms,
        jitter_ms: row.jitter_ms,
        loss_pct: row.loss_pct,
        started_at: match Timestamp::parsed(rfc3339_instant(row.started_at)) {
            Some(t) => t,
            None => now,
        },
        duration_ms: row.duration_ms,
    }
}

/// The text of a number that may be absent: empty where it is.
pub open spec fn csv_number(x: Option<Fixed>) -> Seq<char> {
    match x {
        Some(v) => rendered(v.units as nat),
        None => Seq::empty(),
    }
}

/// The line of an exported file for one record. Fields are joined by commas
/// as they are; nothing is quoted.
pub open spec fn csv_line(r: Record) -> Seq<char> {
    r.task_id + seq![','] + r.endpoint + seq![','] + rendered(r.download_mbps.units as nat) + seq![
        ',',
    ] + csv_number(r.upload_mbps) + seq![','] + csv_number(r.latency_ms) + seq![','] + csv_number(
        r.jitter_ms,
    ) + seq![','] + csv_number(r.loss_pct) + seq![','] + rfc3339_text(r.started_at@ as i64) + seq![
        ',',
    ] + signed_digits(r.duration_ms as int) + seq!['\n']
}

/// The lines for the records, one after the other.
pub open spec fn csv_lines(items: Seq<Record>) -> Seq<char>
    decreases items.len(),
{
    if items.len() == 0 {
        Seq::empty()
    } else {
        csv_lines(items.drop_last()) + csv_line(items.last())
    }
}

/// The content of an exported file: the header, then one line for each record.
pub open spec fn csv_text(items: Seq<Record>) -> Seq<char> {
    CSV_HEADER@ + csv_lines(items)
}

/// `path` with every backslash turned into a slash.
pub open spec fn forward_slashes(path: Seq<char>) -> Seq<char> {
    Seq::new(
        path.len(),
        |i: int|
            if path[i] == '\\' {
                '/'
            } else {
                path[i]
            },
    )
}

/// Whether a colon stands at position `i` of `path`, directly before a slash.
pub open spec fn drive_at(path: Seq<char>, i: int) -> bool {
    0 <= i && i + 1 < path.len() && path[i] == ':' && path[i + 1] == '/'
}

/// Whether `path` names a drive, as in `C:/Users`.
pub open spec fn has_drive(path: Seq<char>) -> bool {
    exists|i: int| drive_at(path, i)
}

/// The address of the database file at `path`.
pub open spec fn database_url(path: Seq<char>) -> Seq<char> {
    let p = forward_slashes(path);
    if has_drive(p) {
        "sqlite:///"@ + p
    } else {
        "sqlite://"@ + p
    }
}

/// The start time of a decoded row is the instant that its stored text
/// names, where the text can be read and names an instant in the range of
/// `Timestamp`; in every other case it is `now`. Nothing else of the row changes.
pub proof fn lemma_decoded_start(row: StoredRow, now: Timestamp)
    ensures
        decoded(row, now).started_at@ == (match rfc3339_instant(row.started_at) {
            Some(millis) => if MIN_MILLIS <= millis <= MAX_MILLIS {
                millis as int
            } else {
                now@
            },
            None => now@,
        }),
        decoded(row, now).task_id == row.task_id,
        decoded(row, now).endpoint == row.endpoint,
        decoded(row, now).download_mbps == row.download_mbps,
        decoded(row, now).upload_mbps == row.upload_mbps,
        decoded(row, now).latency_ms == row.latency_ms,
        decoded(row, now).jitter_ms == row.jitter_ms,
        decoded(row, now).loss_pct == row.loss_pct,
        decoded(row, now).duration_ms == row.duration_ms,
{
    Timestamp::lemma_parsed(rfc3339_instant(row.started_at));
}

/// A record is pruned exactly when it started more than the kept days before
/// `now`. The cutoff is brought into the range of instants, which changes
/// nothing: no record starts outside that range. Fewer than one kept day
/// count as one.
pub proof fn lemma_prune_cutoff(now: Timestamp, keep_days: i64, started_at: Timestamp)
    requires
        MIN_MILLIS <= now@ <= MAX_MILLIS,
        MIN_MILLIS <= started_at@ <= MAX_MILLIS,
    ensures
        started_at@ < clamped_millis(now@ - kept_days(keep_days) * MILLIS_PER_DAY) <==> started_at@
            < now@ - kept_days(keep_days) * MILLIS_PER_DAY,
        keep_days <= 1 ==> kept_days(keep_days) == 1,
        clamped_millis(now@ - kept_days(keep_days) * MILLIS_PER_DAY) <= now@,
{
    assert(kept_days(keep_days) * MILLIS_PER_DAY >= 86_400_000) by (nonlinear_arith)
        requires
            kept_days(keep_days) >= 1,
            MILLIS_PER_DAY == 86_400_000,
    ;
}

/// The pages lie side by side: each page begins where the one before it
/// ends, the first page begins at the first record, and page 0 is the first
/// page.
pub proof fn lemma_pages_are_adjacent(page: u32, page_size: u32)
    requires
        1 <= page < u32::MAX,
    ensures
        MIN_PAGE_SIZE <= page_limit(page_size) <= MAX_PAGE_SIZE,
        page_offset(0, page_size) == 0,
        page_offset(1, page_size) == 0,
        page_offset((page + 1) as u32, page_size) == page_offset(page, page_size) + page_limit(
            page_size,
        ),
{
    let limit = page_limit(page_size) as int;
    let before = (page - 1) as int;
    assert(0 <= before * limit <= 858_993_459_000 && (before + 1) * limit == before * limit
        + limit && 0 <= (before + 1) * limit <= 858_993_459_000) by (nonlinear_arith)
        requires
            0 <= before < 0xffff_ffff,
            1 <= limit <= 200,
    ;
}

/// The count and the page of one filter restrict the records in the same way:
/// the page's statement has the count's range clause and binds the count's
/// values first, then the limit and the offset.
pub proof fn lemma_count_and_page_agree(filter: HistoryFilter)
    ensures
        count_query(filter.from, filter.to).sql == COUNT_SQL@ + range_clause(
            filter.from,
            filter.to,
        ),
        items_query(filter).sql == SELECT_SQL@ + range_clause(filter.from, filter.to) + ORDER_SQL@
            + PAGE_SQL@,
        items_query(filter).binds.len() == count_query(filter.from, filter.to).binds.len() + 2,
        items_query(filter).binds.take(count_query(filter.from, filter.to).binds.len() as int)
            == count_query(filter.from, filter.to).binds,
{
    let shared = range_binds(filter.from, filter.to);
}

/// The value that is bound for a number that may be absent.
fn bind_number(x: Option<Fixed>) -> (v: SqlValue)
    ensures
        v@ == bound_number(x),
{
    match x {
        Some(n) => SqlValue::Real(n),
        None => SqlValue::Null,
    }
}

/// The clause and the values that restrict a statement to a time range.
fn push_range(sql: &mut Vec<char>, binds: &mut Vec<SqlValue>, from: Option<Timestamp>, to: Option<
    Timestamp,
>)
    requires
        old(binds)@.len() == 0,
    ensures
        final(sql)@ == old(sql)@ + range_clause(from, to),
        bounds(final(binds)@) == range_binds(from, to),
{
    match from {
        Some(t) => {
            binds.push(SqlValue::Text(t.to_rfc3339()));
        },
        None => {},
    }
    match to {
        Some(t) => {
            binds.push(SqlValue::Text(t.to_rfc3339()));
        },
        None => {},
    }
    if from.is_some() && to.is_some() {
        append_str(sql, FROM_TO_CLAUSE);
    } else if from.is_some() {
        append_str(sql, FROM_CLAUSE);
    } else if to.is_some() {
        append_str(sql, TO_CLAUSE);
    }
}

/// Appends the text of a number that may be absent.
fn push_csv_number(out: &mut Vec<char>, x: Option<Fixed>)
    ensures
        final(out)@ == old(out)@ + csv_number(x),
{
    match x {
        Some(v) => {
            let digits = v.render();
            append(out, &digits);
        },
        None => {},
    }
}

/// Appends the line for one record.
fn push_csv_line(out: &mut Vec<char>, item: &SpeedTestResult)
    ensures
        final(out)@ == old(out)@ + csv_line(item@),
{
    append_str(out, item.task_id.as_str());
    out.push(',');
    append_str(out, item.endpoint.as_str());
    out.push(',');
    let download = item.download_mbps.render();
    append(out, &download);
    out.push(',');
    push_csv_number(out, item.upload_mbps);
    out.push(',');
    push_csv_number(out, item.latency_ms);
    out.push(',');
    push_csv_number(out, item.jitter_ms);
    out.push(',');
    push_csv_number(out, item.loss_pct);
    out.push(',');
    let started = item.started_at.to_rfc3339();
    append_str(out, started.as_str());
    out.push(',');
    let duration = render_i64(item.duration_ms);
    append(out, &duration);
    out.push('\n');
}

/// The history store, known by the address of its database file.
#[derive(Clone, Debug, PartialEq, Eq)]
pub struct Database {
    url: String,
}

impl View for Database {
    type V = Seq<char>;

    /// The address of the database file.
    closed spec fn view(&self) -> Seq<char> {
        self.url@
    }
}

impl Database {
    /// The store in the file at `db_path`. Backslashes in the path become
    /// slashes, and a path that names a drive gets a third slash in front.
    pub fn new(db_path: &str) -> (db: Database)
        ensures
            db@ == database_url(db_path@),
    {
        let path = chars_of(db_path);
        let mut url_path: Vec<char> = Vec::new();
        let mut drive: bool = false;
        let mut i: usize = 0;
        while i < path.len()
            invariant
                i <= path.len(),
                url_path@ == forward_slashes(path@).take(i as int),
                drive <==> exists|k: int| drive_at(url_path@, k),
            decreases path.len() - i,
        {
            let ghost before = url_path@;
            let c = if path[i] == '\\' {
                '/'
            } else {
                path[i]
            };
            url_path.push(c);
            let found = i > 0 && c == '/' && url_path[i - 1] == ':';
            proof {
                if found {
                    assert(drive_at(url_path@, i - 1));
                }
                if drive {
                    let k = choose|k: int| drive_at(before, k);
                    assert(drive_at(url_path@, k));
                }
                if exists|k: int| drive_at(url_path@, k) {
                    let k = choose|k: int| drive_at(url_path@, k);
                    if k + 1 < i {
                        assert(drive_at(before, k));
                    }
                }
            }
            drive = drive || found;
            i += 1;
        }
        assert(url_path@ =~= forward_slashes(path@));
        let mut url: Vec<char> = Vec::new();
        if drive {
            append_str(&mut url, "sqlite:///");
        } else {
            append_str(&mut url, "sqlite://");
        }
        append(&mut url, &url_path);
        Database { url: string_of(url) }
    }

    /// The address of the database file.
    pub fn url(&self) -> (url: &str)
        ensures
            url@ == self@,
    {
        self.url.as_str()
    }

    /// The statements that create the two tables where they do not exist yet.
    pub fn initialize(&self) -> (statements: Vec<Statement>)
        ensures
            statements@.len() == 2,
            statements@[0]@ == (Query { sql: CREATE_SETTINGS_SQL@, binds: Seq::empty() }),
            statements@[1]@ == (Query { sql: CREATE_SPEED_TESTS_SQL@, binds: Seq::empty() }),
    {
        let mut statements: Vec<Statement> = Vec::new();
        let settings = Statement { sql: CREATE_SETTINGS_SQL.to_owned(), binds: Vec::new() };
        let tests = Statement { sql: CREATE_SPEED_TESTS_SQL.to_owned(), binds: Vec::new() };
        assert(bounds(settings.binds@) =~= Seq::<Bound>::empty());
        statements.push(settings);
        statements.push(tests);
        statements
    }

    /// The statement that reads the stored settings. It gives one row with the
    /// settings as JSON text, or no row where none were saved.
    pub fn load_settings(&self) -> (statement: Statement)
        ensures
            statement@ == (Query { sql: LOAD_SETTINGS_SQL@, binds: Seq::empty() }),
    {
        let statement = Statement { sql: LOAD_SETTINGS_SQL.to_owned(), binds: Vec::new() };
        assert(bounds(statement.binds@) =~= Seq::<Bound>::empty());
        statement
    }

    /// The statement that stores `json`, the settings as JSON text, in the one
    /// row of the settings, over whatever was there.
    pub fn save_settings(&self, json: &str) -> (statement: Statement)
        ensures
            statement@ == (Query { sql: SAVE_SETTINGS_SQL@, binds: seq![Bound::Text(json@)] }),
    {
        let mut binds: Vec<SqlValue> = Vec::new();
        binds.push(SqlValue::Text(json.to_owned()));
        assert(bounds(binds@) =~= seq![Bound::Text(json@)]);
        Statement { sql: SAVE_SETTINGS_SQL.to_owned(), binds }
    }

    /// The statement that stores `result` under its task id. It names all nine
    /// columns, so a record that was there under this id is replaced whole.
    pub fn insert_speed_test(&self, result: &SpeedTestResult) -> (statement: Statement)
        ensures
            statement@ == (Query { sql: INSERT_SQL@, binds: insert_binds(result@) }),
    {
        let mut binds: Vec<SqlValue> = Vec::new();
        binds.push(SqlValue::Text(result.task_id.clone()));
        binds.push(SqlValue::Text(result.endpoint.clone()));
        binds.push(SqlValue::Real(result.download_mbps));
        binds.push(bind_number(result.upload_mbps));
        binds.push(bind_number(result.latency_ms));
        binds.push(bind_number(result.jitter_ms));
        binds.push(bind_number(result.loss_pct));
        binds.push(SqlValue::Text(result.started_at.to_rfc3339()));
        binds.push(SqlValue::Integer(result.duration_ms));
        assert(bounds(binds@) =~= insert_binds(result@));
        Statement { sql: INSERT_SQL.to_owned(), binds }
    }

    /// The two statements that answer `filter`: the count of the records in
    /// its time range, and the page of them that it asks for, the most recent
    /// first. The page holds `page_limit` records after the first `page_offset`.
    pub fn query_history(&self, filter: &HistoryFilter) -> (query: HistoryQuery)
        ensures
            query.count@ == count_query(filter.from, filter.to),
            query.items@ == items_query(*filter),
    {
        let page: u32 = if filter.page < 1 {
            1
        } else {
            filter.page
        };
        let page_size: u32 = if filter.page_size < MIN_PAGE_SIZE {
            MIN_PAGE_SIZE
        } else if filter.page_size > MAX_PAGE_SIZE {
            MAX_PAGE_SIZE
        } else {
            filter.page_size
        };
        let pages_before: i64 = (page - 1) as i64;
        let limit: i64 = page_size as i64;
        assert(0 <= pages_before * limit <= 858_993_459_000) by (nonlinear_arith)
            requires
                0 <= pages_before <= 0xffff_ffff,
                1 <= limit <= 200,
        ;
        let offset: i64 = pages_before * limit;
        assert(offset == page_offset(filter.page, filter.page_size)) by {
            if filter.page <= 1 {
                assert(pages_before * limit == 0) by (nonlinear_arith)
                    requires
                        pages_before == 0,
                ;
            }
        }

        let mut count_sql = chars_of(COUNT_SQL);
        let mut count_binds: Vec<SqlValue> = Vec::new();
        push_range(&mut count_sql, &mut count_binds, filter.from, filter.to);

        let mut items_sql = chars_of(SELECT_SQL);
        let mut items_binds: Vec<SqlValue> = Vec::new();
        push_range(&mut items_sql, &mut items_binds, filter.from, filter.to);
        append_str(&mut items_sql, ORDER_SQL);
        append_str(&mut items_sql, PAGE_SQL);
        let ghost range = bounds(items_binds@);
        items_binds.push(SqlValue::Integer(limit));
        items_binds.push(SqlValue::Integer(offset));
        assert(bounds(items_binds@) =~= range + seq![
            Bound::Integer(page_limit(filter.page_size)),
            Bound::Integer(page_offset(filter.page, filter.page_size)),
        ]);

        HistoryQuery {
            count: Statement { sql: string_of(count_sql), binds: count_binds },
            items: Statement { sql: string_of(items_sql), binds: items_binds },
        }
    }

    /// The record that a stored row stands for. A row whose start time cannot
    /// be read is kept, with `now` in place of the start time.
    pub fn decode_row(row: &HistoryRow, now: Timestamp) -> (result: SpeedTestResult)
        ensures
            result@ == decoded(row@, now),
    {
        let started_at = Timestamp::parse_rfc3339(row.started_at.as_str());
        Database::decode_row_with(row, started_at, now)
    }

    /// The record that a stored row stands for, given what was read from its
    /// start time: `started_at` where that is an instant, `now` where it is not.
    pub fn decode_row_with(row: &HistoryRow, started_at: Option<Timestamp>, now: Timestamp) -> (result:
        SpeedTestResult)
        ensures
            result@ == (Record {
                task_id: row.task_id@,
                endpoint: row.endpoint@,
                download_mbps: row.download_mbps,
                upload_mbps: row.upload_mbps,
                latency_ms: row.latency_ms,
                jitter_ms: row.jitter_ms,
                loss_pct: row.loss_pct,
                started_at: match started_at {
                    Some(t) => t,
                    None => now,
                },
                duration_ms: row.duration_ms,
            }),
    {
        let started_at = match started_at {
            Some(t) => t,
            None => now,
        };
        SpeedTestResult {
            task_id: row.task_id.clone(),
            endpoint: row.endpoint.clone(),
            download_mbps: row.download_mbps,
            upload_mbps: row.upload_mbps,
            latency_ms: row.latency_ms,
            jitter_ms: row.jitter_ms,
            loss_pct: row.loss_pct,
            started_at,
            duration_ms: row.duration_ms,
        }
    }

    /// The records that the stored rows stand for, in the same order.
    pub fn decode_rows(rows: &Vec<HistoryRow>, now: Timestamp) -> (items: Vec<SpeedTestResult>)
        ensures
            items@.len() == rows@.len(),
            forall|i: int| 0 <= i < rows@.len() ==> (#[trigger] items@[i])@ == decoded(rows@[i]@, now),
    {
        let mut items: Vec<SpeedTestResult> = Vec::new();
        let mut i: usize = 0;
        while i < rows.len()
            invariant
                i <= rows.len(),
                items@.len() == i,
                forall|k: int| 0 <= k < i ==> (#[trigger] items@[k])@ == decoded(rows@[k]@, now),
            decreases rows.len() - i,
        {
            items.push(Database::decode_row(&rows[i], now));
            i += 1;
        }
        items
    }

    /// The page that the database's answers to a `HistoryQuery` stand for:
    /// `total` is what the count gave, `rows` what the page gave.
    pub fn history_page(total: i64, rows: &Vec<HistoryRow>, now: Timestamp) -> (page: HistoryPage)
        ensures
            page.total == total,
            page.items@.len() == rows@.len(),
            forall|i: int|
                0 <= i < rows@.len() ==> (#[trigger] page.items@[i])@ == decoded(rows@[i]@, now),
    {
        HistoryPage { total, items: Database::decode_rows(rows, now) }
    }

    /// The statement that reads every record of `range`, the most recent first.
    pub fn export_rows(&self, range: &TimeRange) -> (statement: Statement)
        ensures
            statement@ == export_query(*range),
    {
        let mut sql = chars_of(SELECT_SQL);
        let mut binds: Vec<SqlValue> = Vec::new();
        push_range(&mut sql, &mut binds, range.from, range.to);
        append_str(&mut sql, ORDER_SQL);
        Statement { sql: string_of(sql), binds }
    }

    /// The content of an exported file for `items`: the header line, then one
    /// line for each record. Required numbers have four decimal places, absent
    /// numbers are empty, the start time is RFC 3339 text.
    pub fn render_csv(items: &Vec<SpeedTestResult>) -> (csv: String)
        ensures
            csv@ == csv_text(records(items@)),
    {
        let ghost all = records(items@);
        let mut out = chars_of(CSV_HEADER);
        let mut i: usize = 0;
        while i < items.len()
            invariant
                i <= items.len(),
                all == records(items@),
                out@ == CSV_HEADER@ + csv_lines(all.take(i as int)),
            decreases items.len() - i,
        {
            assert(all.take(i + 1).drop_last() =~= all.take(i as int));
            push_csv_line(&mut out, &items[i]);
            i += 1;
        }
        assert(all.take(i as int) =~= all);
        string_of(out)
    }

    /// The export of `items` to the file at `export_path`: the content to
    /// write there, and the report on it.
    pub fn export_history_csv(&self, export_path: &str, items: &Vec<SpeedTestResult>) -> (export:
        CsvExport)
        ensures
            export.content@ == csv_text(records(items@)),
            export.result.path@ == export_path@,
            export.result.rows == items@.len(),
            items@.len() == 0 ==> export.content@ == CSV_HEADER@,
    {
        let content = Database::render_csv(items);
        CsvExport {
            content,
            result: ExportResult { path: export_path.to_owned(), rows: items.len() as u64 },
        }
    }

    /// The instant before which records are pruned: `keep_days` days before
    /// `now`, and at least one day.
    pub fn prune_cutoff(keep_days: i64, now: Timestamp) -> (cutoff: Timestamp)
        ensures
            cutoff@ == clamped_millis(now@ - kept_days(keep_days) * MILLIS_PER_DAY),
    {
        let days: i64 = if keep_days < 1 {
            1
        } else {
            keep_days
        };
        now.minus_days(days)
    }

    /// The statement that deletes every record that started before the
    /// cutoff. It does not touch the settings.
    pub fn prune_old_history(&self, keep_days: i64, now: Timestamp) -> (statement: Statement)
        ensures
            statement@ == (Query {
                sql: PRUNE_SQL@,
                binds: seq![
                    Bound::Text(
                        rfc3339_text(
                            clamped_millis(
                                now@ - kept_days(keep_days) * MILLIS_PER_DAY,
                            ) as i64,
                        ),
                    ),
                ],
            }),
    {
        let cutoff = Database::prune_cutoff(keep_days, now);
        let mut binds: Vec<SqlValue> = Vec::new();
        binds.push(SqlValue::Text(cutoff.to_rfc3339()));
        assert(bounds(binds@) =~= seq![Bound::Text(rfc3339_text(cutoff@ as i64))]);
        Statement { sql: PRUNE_SQL.to_owned(), binds }
    }
}

} // verus!
