use pulsecore::db::{
    Database, HistoryFilter, HistoryRow, SpeedTestResult, SqlValue, TimeRange, COUNT_SQL,
    INSERT_SQL, PRUNE_SQL,
};
use pulsecore::fixed::Fixed;
use pulsecore::timestamp::Timestamp;

fn at(millis: i64) -> Timestamp {
    Timestamp::from_millis(millis).unwrap()
}

fn text(v: &SqlValue) -> &str {
    match v {
        SqlValue::Text(s) => s.as_str(),
        _ => panic!("not a text"),
    }
}

fn integer(v: &SqlValue) -> i64 {
    match v {
        SqlValue::Integer(n) => *n,
        _ => panic!("not an integer"),
    }
}

fn sample() -> SpeedTestResult {
    SpeedTestResult {
        task_id: "task-42".to_string(),
        endpoint: "https://speed.example.org".to_string(),
        download_mbps: Fixed { units: 943_215 },
        upload_mbps: Some(Fixed { units: 411_000 }),
        latency_ms: None,
        jitter_ms: Some(Fixed { units: 7 }),
        loss_pct: Some(Fixed { units: 0 }),
        started_at: at(1_709_294_400_123),
        duration_ms: 15_000,
    }
}

#[test]
fn the_url_of_a_path_without_a_drive_starts_with_two_slashes() {
    assert_eq!(
        Database::new("/home/user/.local/pulsecore.db").url(),
        "sqlite:///home/user/.local/pulsecore.db"
    );
    assert_eq!(Database::new("data/pulsecore.db").url(), "sqlite://data/pulsecore.db");
    assert_eq!(Database::new("").url(), "sqlite://");
}

#[test]
fn the_url_of_a_path_with_a_drive_has_three_slashes() {
    assert_eq!(
        Database::new("C:\\Users\\me\\AppData\\pulsecore.db").url(),
        "sqlite:///C:/Users/me/AppData/pulsecore.db"
    );
    assert_eq!(Database::new("D:/data/p.db").url(), "sqlite:///D:/data/p.db");
    // a colon that no slash follows names no drive
    assert_eq!(Database::new("a:b\\c").url(), "sqlite://a:b/c");
    assert_eq!(Database::new("x:").url(), "sqlite://x:");
}

#[test]
fn an_insert_binds_all_nine_columns_in_order() {
    let db = Database::new("p.db");
    let s = db.insert_speed_test(&sample());
    assert_eq!(s.sql, INSERT_SQL);
    assert_eq!(s.binds.len(), 9);
    assert_eq!(text(&s.binds[0]), "task-42");
    assert_eq!(text(&s.binds[1]), "https://speed.example.org");
    assert!(matches!(s.binds[2], SqlValue::Real(Fixed { units: 943_215 })));
    assert!(matches!(s.binds[3], SqlValue::Real(Fixed { units: 411_000 })));
    assert!(matches!(s.binds[4], SqlValue::Null));
    assert!(matches!(s.binds[5], SqlValue::Real(Fixed { units: 7 })));
    assert!(matches!(s.binds[6], SqlValue::Real(Fixed { units: 0 })));
    assert_eq!(text(&s.binds[7]), "2024-03-01T12:00:00.123+00:00");
    assert_eq!(integer(&s.binds[8]), 15_000);
}

#[test]
fn a_query_without_bounds_has_no_range_clause() {
    let db = Database::new("p.db");
    let q = db.query_history(&HistoryFilter { page: 3, page_size: 25, from: None, to: None });
    assert_eq!(q.count.sql, COUNT_SQL);
    assert!(q.count.binds.is_empty());
    assert_eq!(
        q.items.sql,
        "SELECT task_id, endpoint, download_mbps, upload_mbps, latency_ms, jitter_ms, loss_pct, started_at, duration_ms FROM speed_tests ORDER BY started_at DESC LIMIT ? OFFSET ?"
    );
    assert_eq!(q.items.binds.len(), 2);
    assert_eq!(integer(&q.items.binds[0]), 25);
    assert_eq!(integer(&q.items.binds[1]), 50);
}

#[test]
fn count_and_page_restrict_in_the_same_way() {
    let db = Database::new("p.db");
    let filter = HistoryFilter {
        page: 2,
        page_size: 10,
        from: Some(at(1_700_000_000_000)),
        to: Some(at(1_709_294_400_000)),
    };
    let q = db.query_history(&filter);
    assert_eq!(
        q.count.sql,
        "SELECT COUNT(1) as total FROM speed_tests WHERE started_at >= ? AND started_at <= ?"
    );
    assert!(q.items.sql.contains(" WHERE started_at >= ? AND started_at <= ? ORDER BY started_at DESC LIMIT ? OFFSET ?"));
    assert_eq!(q.count.binds.len(), 2);
    assert_eq!(q.items.binds.len(), 4);
    for i in 0..2 {
        assert_eq!(text(&q.count.binds[i]), text(&q.items.binds[i]));
    }
    assert_eq!(text(&q.count.binds[0]), "2023-11-14T22:13:20+00:00");
    assert_eq!(text(&q.count.binds[1]), "2024-03-01T12:00:00+00:00");
    assert_eq!(integer(&q.items.binds[2]), 10);
    assert_eq!(integer(&q.items.binds[3]), 10);
}

#[test]
fn one_bound_gives_one_placeholder() {
    let db = Database::new("p.db");
    let q = db.query_history(&HistoryFilter { page: 1, page_size: 1, from: Some(at(0)), to: None });
    assert!(q.count.sql.ends_with(" WHERE started_at >= ?"));
    assert_eq!(q.count.binds.len(), 1);
    assert_eq!(text(&q.count.binds[0]), "1970-01-01T00:00:00+00:00");
    let q = db.query_history(&HistoryFilter { page: 1, page_size: 1, from: None, to: Some(at(0)) });
    assert!(q.count.sql.ends_with(" WHERE started_at <= ?"));
    assert_eq!(q.items.binds.len(), 3);
}

#[test]
fn limit_and_offset_follow_the_clamped_page() {
    let db = Database::new("p.db");
    let cases: [(u32, u32, i64, i64); 7] = [
        (1, 2, 2, 0),
        (3, 2, 2, 4),
        (0, 2, 2, 0),
        (2, 0, 1, 1),
        (2, 201, 200, 200),
        (5, 200, 200, 800),
        (u32::MAX, u32::MAX, 200, 858_993_458_800),
    ];
    for (page, page_size, limit, offset) in cases {
        let q = db.query_history(&HistoryFilter { page, page_size, from: None, to: None });
        assert_eq!(integer(&q.items.binds[0]), limit);
        assert_eq!(integer(&q.items.binds[1]), offset);
    }
}

#[test]
fn an_export_reads_the_whole_range_without_a_page() {
    let db = Database::new("p.db");
    let s = db.export_rows(&TimeRange { from: Some(at(0)), to: None });
    assert!(s.sql.ends_with(" FROM speed_tests WHERE started_at >= ? ORDER BY started_at DESC"));
    assert_eq!(s.binds.len(), 1);
}

#[test]
fn the_prune_statement_binds_the_cutoff() {
    let db = Database::new("p.db");
    let s = db.prune_old_history(30, at(1_709_294_400_000));
    assert_eq!(s.sql, PRUNE_SQL);
    assert_eq!(s.binds.len(), 1);
    assert_eq!(text(&s.binds[0]), "2024-01-31T12:00:00+00:00");
    let s = db.prune_old_history(0, at(1_709_294_400_000));
    assert_eq!(text(&s.binds[0]), "2024-02-29T12:00:00+00:00");
}

#[test]
fn csv_lines_have_four_decimals_and_empty_absent_fields() {
    let mut second = sample();
    second.task_id = "task-43".to_string();
    second.download_mbps = Fixed { units: 5 };
    second.upload_mbps = None;
    second.jitter_ms = None;
    second.loss_pct = None;
    second.started_at = at(0);
    second.duration_ms = -1;
    let csv = Database::render_csv(&vec![sample(), second]);
    assert_eq!(
        csv,
        "task_id,endpoint,download_mbps,upload_mbps,latency_ms,jitter_ms,loss_pct,started_at,duration_ms\n\
task-42,https://speed.example.org,94.3215,41.1000,,0.0007,0.0000,2024-03-01T12:00:00.123+00:00,15000\n\
task-43,https://speed.example.org,0.0005,,,,,1970-01-01T00:00:00+00:00,-1\n"
    );
}

#[test]
fn csv_fields_are_not_quoted() {
    let mut r = sample();
    r.endpoint = "a,b \"c\"".to_string();
    let csv = Database::render_csv(&vec![r]);
    assert!(csv.contains("task-42,a,b \"c\",94.3215,"));
}

#[test]
fn stored_rows_are_decoded_in_order() {
    let rows = vec![
        HistoryRow {
            task_id: "a".to_string(),
            endpoint: "e".to_string(),
            download_mbps: Fixed { units: 1 },
            upload_mbps: None,
            latency_ms: Some(Fixed { units: 2 }),
            jitter_ms: None,
            loss_pct: None,
            started_at: "2024-03-01T13:00:00+01:00".to_string(),
            duration_ms: 9,
        },
        HistoryRow {
            task_id: "b".to_string(),
            endpoint: "e".to_string(),
            download_mbps: Fixed { units: 3 },
            upload_mbps: None,
            latency_ms: None,
            jitter_ms: None,
            loss_pct: None,
            started_at: "not a time".to_string(),
            duration_ms: 0,
        },
    ];
    let page = Database::history_page(17, &rows, at(5));
    assert_eq!(page.total, 17);
    assert_eq!(page.items.len(), 2);
    assert_eq!(page.items[0].task_id, "a");
    assert_eq!(page.items[0].started_at, at(1_709_294_400_000));
    assert_eq!(page.items[0].latency_ms, Some(Fixed { units: 2 }));
    assert_eq!(page.items[1].task_id, "b");
    assert_eq!(page.items[1].started_at, at(5));
}

#[test]
fn the_schema_names_both_tables() {
    let s = Database::new("p.db").initialize();
    assert_eq!(s.len(), 2);
    assert!(s[0].sql.starts_with("CREATE TABLE IF NOT EXISTS settings "));
    assert!(s[1].sql.starts_with("CREATE TABLE IF NOT EXISTS speed_tests "));
    assert!(s[1].sql.contains("task_id TEXT PRIMARY KEY"));
    assert!(s[0].binds.is_empty() && s[1].binds.is_empty());
}
