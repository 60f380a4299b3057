use meta_fuse_driver::health::ApiHealth;

#[test]
fn three_consecutive_errors_degrade_and_one_success_recovers() {
    let mut h = ApiHealth::new();
    assert!(!h.is_unhealthy());
    h.record_error(String::from("e1"), 11);
    assert!(!h.is_unhealthy());
    h.record_error(String::from("e2"), 12);
    assert!(!h.is_unhealthy());
    h.record_error(String::from("e3"), 13);
    assert!(h.is_unhealthy());
    h.record_success();
    assert!(!h.is_unhealthy());
}

#[test]
fn success_resets_the_streak_not_just_the_flag() {
    let mut h = ApiHealth::new();
    h.record_error(String::from("a"), 1);
    h.record_error(String::from("b"), 2);
    h.record_success();
    h.record_error(String::from("c"), 3);
    h.record_error(String::from("d"), 4);
    assert!(!h.is_unhealthy());
    h.record_error(String::from("e"), 5);
    assert!(h.is_unhealthy());
}

#[test]
fn diagnostic_document_renders_count_message_and_timestamp() {
    let mut h = ApiHealth::new();
    h.record_error(String::from("connection refused"), 1700000000);
    let expected = format!(
        "Meta-Fuse FUSE Driver - API Connection Error\n\
        =============================================\n\n\
        The FUSE driver is mounted, but the meta-fuse API is not responding.\n\n\
        Error Details:\n\
        - Consecutive failures: {}\n\
        - Last error: {}\n\
        - Timestamp: {}\n\n\
        Possible causes:\n\
        1. meta-fuse-core service is not running\n\
        2. API (port 3000) is not accessible\n\
        3. Network connectivity issues\n\n\
        To resolve:\n\
        1. Check if meta-fuse is running: docker ps | grep meta-fuse\n\
        2. Check API health: curl http://localhost:3000/api/fuse/health\n\
        3. Restart the container: docker restart meta-fuse\n\n\
        This ERROR.txt file will disappear once the API is responding again.\n",
        1, "connection refused", 1700000000u64
    );
    assert_eq!(h.get_error_content(), expected);
}

#[test]
fn diagnostic_document_before_any_error_reports_zero() {
    let h = ApiHealth::new();
    let content = h.get_error_content();
    assert!(content.contains("- Consecutive failures: 0\n"));
    assert!(content.contains("- Last error: \n"));
    assert!(content.contains("- Timestamp: 0\n"));
}

#[test]
fn diagnostic_document_is_deterministic() {
    let mut h = ApiHealth::new();
    h.record_error(String::from("boom"), 99);
    assert_eq!(h.get_error_content(), h.get_error_content());
}
