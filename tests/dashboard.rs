use contact_backend::handlers::{
    dashboard_data, dashboard_handler, health_handler, track_visitor, DashboardQuery, StatusCode,
    StoreError, MAGIC_KEY, RECENT_LIMIT,
};
use contact_backend::state::MessageLog;

fn row(id: u128, at: i64) -> MessageLog {
    MessageLog {
        id,
        name: format!("n{}", id),
        email: "a@b.co".to_string(),
        message: "hi".to_string(),
        created_at_micros: at,
    }
}

fn store_error() -> StoreError {
    StoreError { detail: "pool timed out".to_string() }
}

#[test]
fn exact_key_opens_dashboard() {
    let q = dashboard_handler(Some("open-sesame")).unwrap();
    assert_eq!(q, DashboardQuery { message_limit: 50 });
    assert_eq!(MAGIC_KEY, "open-sesame");
}

#[test]
fn surrounding_whitespace_is_trimmed() {
    assert!(dashboard_handler(Some("  open-sesame\t")).is_ok());
    assert!(dashboard_handler(Some("\u{a0}open-sesame\u{3000}")).is_ok());
}

#[test]
fn missing_or_wrong_key_is_not_found() {
    assert_eq!(dashboard_handler(None), Err(StatusCode::NotFound));
    assert_eq!(StatusCode::NotFound.code(), 404);
    for bad in ["", "open-sesam", "Open-Sesame", "open sesame", "open-sesame!", "xopen-sesame", "open-\u{20}sesame"] {
        assert_eq!(dashboard_handler(Some(bad)), Err(StatusCode::NotFound), "{:?}", bad);
    }
}

#[test]
fn empty_store_gives_empty_dashboard() {
    let q = DashboardQuery { message_limit: RECENT_LIMIT };
    let d = dashboard_data(&q, Ok(None), Ok(Vec::new()));
    assert_eq!(d.visitor_count, 0);
    assert!(d.recent_messages.is_empty());
    let d = dashboard_data(&q, Ok(Some(0)), Ok(Vec::new()));
    assert_eq!(d.visitor_count, 0);
    assert!(d.recent_messages.is_empty());
}

#[test]
fn failed_reads_degrade() {
    let q = DashboardQuery { message_limit: RECENT_LIMIT };
    let d = dashboard_data(&q, Err(store_error()), Err(store_error()));
    assert_eq!(d.visitor_count, 0);
    assert!(d.recent_messages.is_empty());
    let d = dashboard_data(&q, Ok(Some(7)), Err(store_error()));
    assert_eq!(d.visitor_count, 7);
    let d = dashboard_data(&q, Err(store_error()), Ok(vec![row(1, 10)]));
    assert_eq!(d.visitor_count, 0);
    assert_eq!(d.recent_messages.len(), 1);
}

#[test]
fn newest_rows_kept_in_order_up_to_limit() {
    let q = DashboardQuery { message_limit: RECENT_LIMIT };
    let rows: Vec<MessageLog> = (0..60u128).map(|i| row(i, 1000 - i as i64)).collect();
    let d = dashboard_data(&q, Ok(Some(60)), Ok(rows));
    assert_eq!(d.visitor_count, 60);
    assert_eq!(d.recent_messages.len(), 50);
    for (i, m) in d.recent_messages.iter().enumerate() {
        assert_eq!(m.id, i as u128);
    }
    let d = dashboard_data(&q, Ok(Some(2)), Ok(vec![row(9, 20), row(8, 10)]));
    assert_eq!(d.recent_messages[0].id, 9);
    assert_eq!(d.recent_messages[1].id, 8);
}

#[test]
fn preflight_is_not_a_visit() {
    assert!(!track_visitor("OPTIONS"));
    for m in ["GET", "POST", "PUT", "DELETE", "HEAD", "options", "OPTION"] {
        assert!(track_visitor(m), "{}", m);
    }
    let n = ["GET", "POST", "GET", "OPTIONS", "POST"].iter().filter(|m| track_visitor(m)).count();
    assert_eq!(n, 4);
}

#[test]
fn health_text_is_decimal_nanoseconds() {
    assert_eq!(health_handler(0), "0");
    assert_eq!(health_handler(1_700_000_000_123_456_789), "1700000000123456789");
    assert_eq!(health_handler(u128::MAX), u128::MAX.to_string());
    assert_eq!(health_handler(42), health_handler(42));
}
