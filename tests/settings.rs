use gateway_router::decimal::{parse_u64, worker_threads};

#[test]
fn worker_thread_override() {
    assert_eq!(worker_threads(None), None);
    assert_eq!(worker_threads(Some("4".to_string())), Some(4));
    assert_eq!(worker_threads(Some("+2".to_string())), Some(2));
    assert_eq!(worker_threads(Some("0".to_string())), None);
    assert_eq!(worker_threads(Some("four".to_string())), None);
    assert_eq!(worker_threads(Some("".to_string())), None);
}

#[test]
fn decimal_parse() {
    assert_eq!(parse_u64("0"), Some(0));
    assert_eq!(parse_u64("+17"), Some(17));
    assert_eq!(parse_u64("007"), Some(7));
    assert_eq!(parse_u64("18446744073709551615"), Some(u64::MAX));
    assert_eq!(parse_u64("18446744073709551616"), None);
    assert_eq!(parse_u64("99999999999999999999x"), None);
    assert_eq!(parse_u64(""), None);
    assert_eq!(parse_u64("+"), None);
    assert_eq!(parse_u64("-1"), None);
    assert_eq!(parse_u64("1 "), None);
    assert_eq!(parse_u64("١"), None);
}
