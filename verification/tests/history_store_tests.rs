use pulsecore::db::{
    Database, HistoryFilter, HistoryPage, HistoryRow, SpeedTestResult, SqlValue, Statement,
    TimeRange, CSV_HEADER,
};
use pulsecore::fixed::Fixed;
use pulsecore::timestamp::Timestamp;
use sqlx::sqlite::{SqlitePool, SqlitePoolOptions, SqliteRow};
use sqlx::Row;

const DAY: i64 = 86_400_000;
// 2024-03-01T12:00:00Z
const NOW: i64 = 1_709_294_400_000;

fn at(millis: i64) -> Timestamp {
    Timestamp::from_millis(millis).unwrap()
}

fn fixed(x: f64) -> Fixed {
    Fixed { units: (x * 10_000.0).round() as u64 }
}

fn record(task_id: &str, started_at: i64) -> SpeedTestResult {
    SpeedTestResult {
        task_id: task_id.to_string(),
        endpoint: "https://speed.example.org".to_string(),
        download_mbps: Fixed { units: 943_210 },
        upload_mbps: Some(Fixed { units: 411_000 }),
        latency_ms: Some(Fixed { units: 123_400 }),
        jitter_ms: None,
        loss_pct: Some(Fixed { units: 0 }),
        started_at: at(started_at),
        duration_ms: 15_000,
    }
}

fn block_on<F: std::future::Future>(f: F) -> F::Output {
    tokio::runtime::Builder::new_current_thread().enable_all().build().unwrap().block_on(f)
}

async fn execute(pool: &SqlitePool, s: &Statement) -> u64 {
    let mut q = sqlx::query(&s.sql);
    for v in &s.binds {
        q = match v {
            SqlValue::Text(t) => q.bind(t.clone()),
            SqlValue::Real(x) => q.bind(x.units as f64 / 10_000.0),
            SqlValue::Integer(n) => q.bind(*n),
            SqlValue::Null => q.bind(Option::<f64>::None),
        };
    }
    q.execute(pool).await.unwrap().rows_affected()
}

async fn fetch(pool: &SqlitePool, s: &Statement) -> Vec<SqliteRow> {
    let mut q = sqlx::query(&s.sql);
    for v in &s.binds {
        q = match v {
            SqlValue::Text(t) => q.bind(t.clone()),
            SqlValue::Real(x) => q.bind(x.units as f64 / 10_000.0),
            SqlValue::Integer(n) => q.bind(*n),
            SqlValue::Null => q.bind(Option::<f64>::None),
        };
    }
    q.fetch_all(pool).await.unwrap()
}

fn stored(r: &SqliteRow) -> HistoryRow {
    HistoryRow {
        task_id: r.try_get("task_id").unwrap(),
        endpoint: r.try_get("endpoint").unwrap(),
        download_mbps: fixed(r.try_get::<f64, _>("download_mbps").unwrap()),
        upload_mbps: r.try_get::<Option<f64>, _>("upload_mbps").unwrap().map(fixed),
        latency_ms: r.try_get::<Option<f64>, _>("latency_ms").unwrap().map(fixed),
        jitter_ms: r.try_get::<Option<f64>, _>("jitter_ms").unwrap().map(fixed),
        loss_pct: r.try_get::<Option<f64>, _>("loss_pct").unwrap().map(fixed),
        started_at: r.try_get("started_at").unwrap(),
        duration_ms: r.try_get("duration_ms").unwrap(),
    }
}

async fn open() -> (Database, SqlitePool) {
    let pool = SqlitePoolOptions::new().max_connections(1).connect("sqlite::memory:").await.unwrap();
    let db = Database::new("history.db");
    for s in db.initialize() {
        execute(&pool, &s).await;
    }
    (db, pool)
}

async fn query(db: &Database, pool: &SqlitePool, filter: &HistoryFilter) -> HistoryPage {
    let q = db.query_history(filter);
    let total: i64 = fetch(pool, &q.count).await[0].try_get("total").unwrap();
    let rows: Vec<HistoryRow> = fetch(pool, &q.items).await.iter().map(stored).collect();
    Database::history_page(total, &rows, at(NOW))
}

async fn export(db: &Database, pool: &SqlitePool, range: &TimeRange) -> Vec<SpeedTestResult> {
    let rows: Vec<HistoryRow> =
        fetch(pool, &db.export_rows(range)).await.iter().map(stored).collect();
    Database::decode_rows(&rows, at(NOW))
}

fn same(a: &SpeedTestResult, b: &SpeedTestResult) -> bool {
    a.task_id == b.task_id
        && a.endpoint == b.endpoint
        && a.download_mbps == b.download_mbps
        && a.upload_mbps == b.upload_mbps
        && a.latency_ms == b.latency_ms
        && a.jitter_ms == b.jitter_ms
        && a.loss_pct == b.loss_pct
        && a.started_at == b.started_at
        && a.duration_ms == b.duration_ms
}

fn all() -> HistoryFilter {
    HistoryFilter { page: 1, page_size: 200, from: None, to: None }
}

#[test]
fn a_second_insert_with_the_same_task_id_replaces_the_record() {
    block_on(async {
        let (db, pool) = open().await;
        let first = record("task-1", NOW - 1000);
        let second = SpeedTestResult {
            task_id: "task-1".to_string(),
            endpoint: "https://other.example.org".to_string(),
            download_mbps: Fixed { units: 10_000 },
            upload_mbps: None,
            latency_ms: None,
            jitter_ms: Some(Fixed { units: 5_000 }),
            loss_pct: None,
            started_at: at(NOW),
            duration_ms: 7,
        };
        execute(&pool, &db.insert_speed_test(&first)).await;
        execute(&pool, &db.insert_speed_test(&second)).await;
        let page = query(&db, &pool, &all()).await;
        assert_eq!(page.total, 1);
        assert_eq!(page.items.len(), 1);
        assert!(same(&page.items[0], &second));
        // the same record once more changes nothing
        execute(&pool, &db.insert_speed_test(&second)).await;
        let page = query(&db, &pool, &all()).await;
        assert_eq!(page.total, 1);
        assert!(same(&page.items[0], &second));
    });
}

#[test]
fn a_stored_record_comes_back_as_it_was() {
    block_on(async {
        let (db, pool) = open().await;
        let r = record("roundtrip", NOW - 123);
        execute(&pool, &db.insert_speed_test(&r)).await;
        let page = query(&db, &pool, &all()).await;
        assert_eq!(page.total, 1);
        assert!(same(&page.items[0], &r));
    });
}

#[test]
fn pages_of_two_over_five_records_descend_by_start_time() {
    block_on(async {
        let (db, pool) = open().await;
        // inserted out of order, one millisecond apart
        for (id, offset) in [("c", 3), ("a", 1), ("e", 5), ("b", 2), ("d", 4)] {
            execute(&pool, &db.insert_speed_test(&record(id, NOW + offset))).await;
        }
        let mut seen: Vec<SpeedTestResult> = Vec::new();
        let mut sizes: Vec<usize> = Vec::new();
        for page in 1..=4u32 {
            let filter = HistoryFilter { page, page_size: 2, from: None, to: None };
            let p = query(&db, &pool, &filter).await;
            assert_eq!(p.total, 5);
            sizes.push(p.items.len());
            seen.extend(p.items);
        }
        assert_eq!(sizes, vec![2, 2, 1, 0]);
        let ids: Vec<&str> = seen.iter().map(|r| r.task_id.as_str()).collect();
        assert_eq!(ids, vec!["e", "d", "c", "b", "a"]);
        for pair in seen.windows(2) {
            assert!(pair[1].started_at.is_before(&pair[0].started_at));
        }
    });
}

#[test]
fn page_zero_is_the_first_page_and_the_page_size_is_clamped() {
    block_on(async {
        let (db, pool) = open().await;
        for i in 0..205i64 {
            execute(&pool, &db.insert_speed_test(&record(&format!("t{i}"), NOW + i))).await;
        }
        let zero = query(&db, &pool, &HistoryFilter { page: 0, page_size: 3, from: None, to: None }).await;
        let one = query(&db, &pool, &HistoryFilter { page: 1, page_size: 3, from: None, to: None }).await;
        assert_eq!(zero.items.len(), 3);
        assert_eq!(zero.items[0].task_id, "t204");
        assert_eq!(one.items[0].task_id, "t204");
        let tiny = query(&db, &pool, &HistoryFilter { page: 2, page_size: 0, from: None, to: None }).await;
        assert_eq!(tiny.items.len(), 1);
        assert_eq!(tiny.items[0].task_id, "t203");
        let huge = query(&db, &pool, &HistoryFilter { page: 1, page_size: 10_000, from: None, to: None }).await;
        assert_eq!(huge.total, 205);
        assert_eq!(huge.items.len(), 200);
        let rest = query(&db, &pool, &HistoryFilter { page: 2, page_size: 10_000, from: None, to: None }).await;
        assert_eq!(rest.items.len(), 5);
        assert_eq!(rest.items[4].task_id, "t0");
    });
}

#[test]
fn both_ends_of_the_time_range_are_inclusive() {
    block_on(async {
        let (db, pool) = open().await;
        for (id, t) in [("before", NOW - 1), ("first", NOW), ("mid", NOW + 500), ("last", NOW + 1000), ("after", NOW + 1001)] {
            execute(&pool, &db.insert_speed_test(&record(id, t))).await;
        }
        let filter = HistoryFilter { page: 1, page_size: 50, from: Some(at(NOW)), to: Some(at(NOW + 1000)) };
        let p = query(&db, &pool, &filter).await;
        assert_eq!(p.total, 3);
        let ids: Vec<&str> = p.items.iter().map(|r| r.task_id.as_str()).collect();
        assert_eq!(ids, vec!["last", "mid", "first"]);

        let from_only = HistoryFilter { page: 1, page_size: 50, from: Some(at(NOW + 1000)), to: None };
        let p = query(&db, &pool, &from_only).await;
        assert_eq!(p.total, 2);
        assert_eq!(p.items[0].task_id, "after");

        let to_only = HistoryFilter { page: 1, page_size: 1, from: None, to: Some(at(NOW)) };
        let p = query(&db, &pool, &to_only).await;
        // the count covers the whole range, the items one page of it
        assert_eq!(p.total, 2);
        assert_eq!(p.items.len(), 1);
        assert_eq!(p.items[0].task_id, "first");
    });
}

#[test]
fn pruning_removes_only_what_is_older_than_the_kept_days() {
    block_on(async {
        let (db, pool) = open().await;
        for (id, t) in [
            ("two-days", NOW - 2 * DAY),
            ("just-older", NOW - DAY - 1),
            ("boundary", NOW - DAY),
            ("just-newer", NOW - DAY + 1),
            ("now", NOW),
        ] {
            execute(&pool, &db.insert_speed_test(&record(id, t))).await;
        }
        execute(&pool, &db.save_settings("{\"refresh_rate_ms\":1000}")).await;

        let removed = execute(&pool, &db.prune_old_history(1, at(NOW))).await;
        assert_eq!(removed, 2);
        let p = query(&db, &pool, &all()).await;
        let ids: Vec<&str> = p.items.iter().map(|r| r.task_id.as_str()).collect();
        assert_eq!(ids, vec!["now", "just-newer", "boundary"]);

        // a second sweep with the same cutoff finds nothing
        let removed = execute(&pool, &db.prune_old_history(1, at(NOW))).await;
        assert_eq!(removed, 0);
        assert_eq!(query(&db, &pool, &all()).await.total, 3);

        // the settings are still there
        let rows = fetch(&pool, &db.load_settings()).await;
        assert_eq!(rows.len(), 1);
    });
}

#[test]
fn fewer_than_one_kept_day_counts_as_one() {
    block_on(async {
        let (db, pool) = open().await;
        execute(&pool, &db.insert_speed_test(&record("recent", NOW - DAY + 1))).await;
        execute(&pool, &db.insert_speed_test(&record("old", NOW - DAY - 1))).await;
        for keep in [0i64, -5, i64::MIN] {
            execute(&pool, &db.prune_old_history(keep, at(NOW))).await;
            let p = query(&db, &pool, &all()).await;
            assert_eq!(p.total, 1);
            assert_eq!(p.items[0].task_id, "recent");
        }
        assert_eq!(Database::prune_cutoff(0, at(NOW)), at(NOW - DAY));
        assert_eq!(Database::prune_cutoff(30, at(NOW)), at(NOW - 30 * DAY));
    });
}

#[test]
fn an_enormous_retention_prunes_nothing() {
    block_on(async {
        let (db, pool) = open().await;
        execute(&pool, &db.insert_speed_test(&record("ancient", -62_167_219_200_000))).await;
        let removed = execute(&pool, &db.prune_old_history(i64::MAX, at(NOW))).await;
        assert_eq!(removed, 0);
        assert_eq!(Database::prune_cutoff(i64::MAX, at(NOW)), at(-62_167_219_200_000));
    });
}

#[test]
fn a_row_with_an_unreadable_start_time_is_kept_with_the_current_time() {
    block_on(async {
        let (db, pool) = open().await;
        execute(&pool, &db.insert_speed_test(&record("good", NOW - 5))).await;
        let broken = Statement {
            sql: db.insert_speed_test(&record("bad", NOW)).sql,
            binds: vec![
                SqlValue::Text("bad".to_string()),
                SqlValue::Text("e".to_string()),
                SqlValue::Real(Fixed { units: 10_000 }),
                SqlValue::Null,
                SqlValue::Null,
                SqlValue::Null,
                SqlValue::Null,
                SqlValue::Text("yesterday afternoon".to_string()),
                SqlValue::Integer(1),
            ],
        };
        execute(&pool, &broken).await;
        let p = query(&db, &pool, &all()).await;
        assert_eq!(p.total, 2);
        assert_eq!(p.items.len(), 2);
        let bad = p.items.iter().find(|r| r.task_id == "bad").unwrap();
        assert_eq!(bad.started_at, at(NOW));
        let good = p.items.iter().find(|r| r.task_id == "good").unwrap();
        assert_eq!(good.started_at, at(NOW - 5));
    });
}

#[test]
fn an_export_of_an_empty_range_holds_only_the_header() {
    block_on(async {
        let (db, pool) = open().await;
        execute(&pool, &db.insert_speed_test(&record("outside", NOW))).await;
        let range = TimeRange { from: Some(at(NOW + 1)), to: Some(at(NOW + 2)) };
        let items = export(&db, &pool, &range).await;
        let out = db.export_history_csv("/tmp/exports/history.csv", &items);
        assert_eq!(
            out.content,
            "task_id,endpoint,download_mbps,upload_mbps,latency_ms,jitter_ms,loss_pct,started_at,duration_ms\n"
        );
        assert_eq!(out.content, CSV_HEADER);
        assert_eq!(out.result.rows, 0);
        assert_eq!(out.result.path, "/tmp/exports/history.csv");
    });
}

#[test]
fn an_export_holds_every_record_of_the_range() {
    block_on(async {
        let (db, pool) = open().await;
        for i in 0..250i64 {
            execute(&pool, &db.insert_speed_test(&record(&format!("t{i}"), NOW + i))).await;
        }
        let items = export(&db, &pool, &TimeRange { from: None, to: None }).await;
        assert_eq!(items.len(), 250);
        assert_eq!(items[0].task_id, "t249");
        assert_eq!(items[249].task_id, "t0");
        let out = db.export_history_csv("out.csv", &items);
        assert_eq!(out.result.rows, 250);
        assert_eq!(out.content.lines().count(), 251);
        let part = export(&db, &pool, &TimeRange { from: Some(at(NOW + 10)), to: Some(at(NOW + 19)) }).await;
        assert_eq!(part.len(), 10);
    });
}

#[test]
fn settings_are_overwritten_whole() {
    block_on(async {
        let (db, pool) = open().await;
        assert_eq!(fetch(&pool, &db.load_settings()).await.len(), 0);
        execute(&pool, &db.save_settings("{\"a\":1,\"b\":2}")).await;
        execute(&pool, &db.save_settings("{\"a\":3}")).await;
        let rows = fetch(&pool, &db.load_settings()).await;
        assert_eq!(rows.len(), 1);
        let json: String = rows[0].try_get("json").unwrap();
        assert_eq!(json, "{\"a\":3}");
    });
}

#[test]
fn creating_the_tables_twice_is_harmless() {
    block_on(async {
        let (db, pool) = open().await;
        execute(&pool, &db.insert_speed_test(&record("kept", NOW))).await;
        for s in db.initialize() {
            execute(&pool, &s).await;
        }
        assert_eq!(query(&db, &pool, &all()).await.total, 1);
    });
}
