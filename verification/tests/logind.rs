use niralis_session_worker::logind::{
    pid_has_no_logind_session, string_query_failure, vtnr_from_query, LogindError,
    LogindSessionId,
};

#[test]
fn recognizes_systemd_no_session_results() {
    assert!(pid_has_no_logind_session(-libc::ENODATA));
    assert!(pid_has_no_logind_session(-libc::ENXIO));
    assert!(pid_has_no_logind_session(-libc::ENOENT));
    assert!(!pid_has_no_logind_session(-libc::EACCES));
}

#[test]
fn session_ids_are_bounded_and_free_of_nul() {
    assert_eq!(LogindSessionId::new("c1".to_owned()).unwrap().as_str(), "c1");
    assert_eq!(
        LogindSessionId::new(String::new()).err(),
        Some(LogindError::InvalidSessionId)
    );
    assert_eq!(
        LogindSessionId::new("a\0b".to_owned()).err(),
        Some(LogindError::InvalidSessionId)
    );
    assert!(LogindSessionId::new("x".repeat(128)).is_ok());
    assert_eq!(
        LogindSessionId::new("c1".to_owned()).unwrap(),
        LogindSessionId::new("c1".to_owned()).unwrap()
    );
    assert_ne!(
        LogindSessionId::new("c1".to_owned()).unwrap(),
        LogindSessionId::new("c2".to_owned()).unwrap()
    );
    assert_eq!(
        LogindSessionId::new("x".repeat(129)).err(),
        Some(LogindError::InvalidSessionId)
    );
}

#[test]
fn vt_and_string_queries_are_classified() {
    assert_eq!(vtnr_from_query(0, 2), Some(2));
    assert_eq!(vtnr_from_query(0, 0), None);
    assert_eq!(vtnr_from_query(-5, 2), None);
    assert_eq!(string_query_failure("sd_session_get_type", 0, true), None);
    assert_eq!(
        string_query_failure("sd_session_get_type", -2, true),
        Some(LogindError::QueryFailed {
            operation: "sd_session_get_type",
            result: -2
        })
    );
    assert_eq!(
        string_query_failure("sd_session_get_type", 0, false),
        Some(LogindError::QueryFailed {
            operation: "sd_session_get_type",
            result: 0
        })
    );
}
