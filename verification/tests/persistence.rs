use netcons_modules::batch::PendingBatch;
use netcons_modules::channel::ChannelTable;
use netcons_modules::error::FatalError;
use netcons_modules::record::ExtendedMsg;
use netcons_modules::record::LegacyMsg;
use netcons_modules::record::Row;
use netcons_modules::sql::bind_params;
use netcons_modules::sql::create_table_sql;
use netcons_modules::sql::insert_statement_sql;
use netcons_modules::sql::SqlParam;
use netcons_modules::writer::WriterControl;

fn legacy_row(text: &str, src: &str) -> Row {
    Row::new_legacy(src.to_string(), &LegacyMsg { text: text.to_string() })
}

fn extended_row(text: &str, src: &str, seq: u64) -> Row {
    Row::new_extended(
        src.to_string(),
        &ExtendedMsg {
            text: text.to_string(),
            seq,
            facility: 3,
            level: 6,
            oos: false,
            seq_reset: true,
        },
    )
}

#[test]
fn legacy_record_has_no_optional_fields() {
    let row = legacy_row("kernel says hi", "feed::1");
    assert_eq!(row.text, "kernel says hi");
    assert_eq!(row.src, "feed::1");
    assert!(row.seq.is_none());
    assert!(row.facility.is_none());
    assert!(row.level.is_none());
    assert!(row.oos.is_none());
    assert!(row.seq_reset.is_none());
}

#[test]
fn extended_record_has_all_optional_fields() {
    let row = extended_row("oops", "feed::2", 41);
    assert_eq!(row.text, "oops");
    assert_eq!(row.src, "feed::2");
    assert_eq!(row.seq, Some(41));
    assert_eq!(row.facility, Some(3));
    assert_eq!(row.level, Some(6));
    assert_eq!(row.oos, Some(false));
    assert_eq!(row.seq_reset, Some(true));
}

#[test]
fn from_message_prefers_legacy_buffer() {
    let legacy = LegacyMsg { text: "old".to_string() };
    let extended = ExtendedMsg {
        text: "new".to_string(),
        seq: 1,
        facility: 0,
        level: 0,
        oos: false,
        seq_reset: false,
    };
    let row = Row::from_message("s".to_string(), Some(&legacy), Some(&extended));
    assert_eq!(row.text, "old");
    assert!(row.seq.is_none());
    let row = Row::from_message("s".to_string(), None, Some(&extended));
    assert_eq!(row.text, "new");
    assert_eq!(row.seq, Some(1));
}

#[test]
fn small_batch_flushes_after_time_bound_with_exact_rows() {
    let mut batch = PendingBatch::new(1_000_000);
    for i in 0..5u64 {
        let flushed = batch.on_receive(Some(extended_row("m", "s", i)), 1_000_000 + i);
        assert!(flushed.is_none());
    }
    assert_eq!(batch.len(), 5);
    // nothing new arrives, but ten seconds pass since the last flush
    let flushed = batch.on_receive(None, 1_010_000).expect("time-based flush expected");
    assert_eq!(flushed.len(), 5);
    assert_eq!(batch.len(), 0);
    for (i, row) in flushed.iter().enumerate() {
        assert_eq!(row.seq, Some(i as u64));
    }
    // the bound parameters cover exactly those 5 rows
    assert_eq!(bind_params(&flushed).len(), 7 * 5);
}

#[test]
fn thousandth_record_triggers_exactly_one_full_flush() {
    let mut batch = PendingBatch::new(0);
    let mut flushes = 0;
    let mut flushed_rows = 0;
    for i in 0..1000u64 {
        // all within the same instant: only the size trigger can fire
        if let Some(rows) = batch.on_receive(Some(legacy_row("m", "s")), 5 + i / 1000) {
            flushes += 1;
            flushed_rows += rows.len();
            assert_eq!(i, 999);
        }
    }
    assert_eq!(flushes, 1);
    assert_eq!(flushed_rows, 1000);
    assert_eq!(batch.len(), 0);
    // the full flush reset the time-since-last-flush clock to its moment
    assert_eq!(batch.last_write_ms(), 5);
}

#[test]
fn single_straggler_flushes_alone_after_ten_seconds() {
    let mut batch = PendingBatch::new(100);
    assert!(batch.on_receive(Some(legacy_row("lone", "s")), 150).is_none());
    // receive attempts keep timing out; at +10s the one record goes out
    assert!(batch.on_receive(None, 9_000).is_none());
    let flushed = batch.on_receive(None, 10_100).expect("straggler must flush");
    assert_eq!(flushed.len(), 1);
    assert_eq!(flushed[0].text, "lone");
    assert_eq!(batch.len(), 0);
}

#[test]
fn shutdown_drain_commits_all_pending_rows() {
    let mut batch = PendingBatch::new(0);
    for i in 0..3u64 {
        assert!(batch.on_receive(Some(extended_row("d", "s", i)), 10).is_none());
    }
    let rows = batch.drain();
    assert_eq!(rows.len(), 3);
    assert_eq!(batch.len(), 0);
    for (i, row) in rows.iter().enumerate() {
        assert_eq!(row.seq, Some(i as u64));
    }
    assert!(batch.drain().is_empty());
}

#[test]
fn insert_statement_matches_batch_size() {
    assert_eq!(
        insert_statement_sql(1),
        "INSERT INTO messages (text, src, seq, facility, level, oos, seq_reset) VALUES \
         (?, ?, ?, ?, ?, ?, ?)"
    );
    assert_eq!(
        insert_statement_sql(3),
        "INSERT INTO messages (text, src, seq, facility, level, oos, seq_reset) VALUES \
         (?, ?, ?, ?, ?, ?, ?), (?, ?, ?, ?, ?, ?, ?), (?, ?, ?, ?, ?, ?, ?)"
    );
    let thousand = insert_statement_sql(1000);
    assert_eq!(thousand.matches('?').count(), 7000);
    assert_eq!(thousand.matches('(').count(), 1001);
}

#[test]
fn create_table_statement_is_fixed() {
    assert_eq!(
        create_table_sql(),
        "CREATE TABLE IF NOT EXISTS messages (text TEXT, src TEXT, seq INTEGER, facility \
         INTEGER, level INTEGER, oos INTEGER, seq_reset INTEGER)"
    );
}

#[test]
fn params_bind_positionally_in_column_order() {
    let rows = vec![extended_row("x", "a", 9), legacy_row("y", "b")];
    let params = bind_params(&rows);
    assert_eq!(params.len(), 14);
    assert!(matches!(params[0], SqlParam::Text(ref t) if t == "x"));
    assert!(matches!(params[1], SqlParam::Text(ref t) if t == "a"));
    assert!(matches!(params[2], SqlParam::Uint(9)));
    assert!(matches!(params[3], SqlParam::Uint(3)));
    assert!(matches!(params[4], SqlParam::Uint(6)));
    assert!(matches!(params[5], SqlParam::Uint(0)));
    assert!(matches!(params[6], SqlParam::Uint(1)));
    assert!(matches!(params[7], SqlParam::Text(ref t) if t == "y"));
    assert!(matches!(params[8], SqlParam::Text(ref t) if t == "b"));
    for p in &params[9..14] {
        assert!(matches!(p, SqlParam::Null));
    }
}

#[test]
fn channel_table_enforces_worker_ceiling() {
    assert!(matches!(ChannelTable::init(257, 0u32), Err(FatalError::TooManyWorkers)));
    let table = ChannelTable::init(256, 7u32).expect("256 workers are supported");
    assert_eq!(*table.get_producer(0), 7);
    assert_eq!(*table.get_producer(255), 7);
}

#[test]
fn writer_lifecycle_forbids_double_start() {
    let mut control = WriterControl::new();
    assert!(!control.is_running());
    assert!(control.start().is_ok());
    assert!(control.is_running());
    assert!(matches!(control.start(), Err(FatalError::AlreadyRunning)));
    control.request_stop();
    assert!(!control.is_running());
    control.mark_stopped();
    assert!(control.start().is_ok());
}

#[test]
fn fatal_errors_have_descriptions() {
    assert_eq!(
        FatalError::TooManyWorkers.describe(),
        "worker count above the supported maximum"
    );
    assert_eq!(FatalError::AlreadyRunning.describe(), "writer already running");
}
