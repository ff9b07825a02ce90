use report_relay::cache::Cache;
use report_relay::dispatch::dedup_key;
use report_relay::dispatch::respond;
use report_relay::dispatch::should_dispatch;
use report_relay::dispatch::HandleError;
use report_relay::dispatch::SinkOutcome;
use report_relay::report::ReportBody;
use report_relay::report::ReportType;

fn automatic(message: &str, ext_version: &str) -> ReportBody {
    ReportBody {
        report_type: ReportType::Automatic,
        message: message.to_string(),
        ext_version: ext_version.to_string(),
    }
}

fn manual(message: &str, ext_version: &str) -> ReportBody {
    ReportBody {
        report_type: ReportType::Manual,
        message: message.to_string(),
        ext_version: ext_version.to_string(),
    }
}

#[test]
fn automatic_duplicate_suppressed() {
    let mut cache = Cache::new();
    let first = should_dispatch(&mut cache, &automatic("crash", "1.0"));
    let second = should_dispatch(&mut cache, &automatic("crash", "1.0"));
    assert!(first);
    assert!(!second);
    // Both calls are acknowledged as success.
    assert_eq!(respond(Some(SinkOutcome::Delivered)).unwrap(), "OK");
    assert_eq!(respond(None).unwrap(), "OK");
}

#[test]
fn distinct_ext_versions_both_dispatch() {
    let mut cache = Cache::new();
    let first = should_dispatch(&mut cache, &automatic("crash", "1.0"));
    let second = should_dispatch(&mut cache, &automatic("crash", "2.0"));
    assert!(first);
    assert!(second);
}

#[test]
fn distinct_messages_both_dispatch() {
    let mut cache = Cache::new();
    let first = should_dispatch(&mut cache, &automatic("crash", "1.0"));
    let second = should_dispatch(&mut cache, &automatic("hang", "1.0"));
    assert!(first);
    assert!(second);
}

#[test]
fn manual_always_dispatches() {
    let mut cache = Cache::new();
    let first = should_dispatch(&mut cache, &manual("hello", "1.0"));
    let second = should_dispatch(&mut cache, &manual("hello", "1.0"));
    assert!(first);
    assert!(second);
}

#[test]
fn manual_does_not_mark_key_seen() {
    let mut cache = Cache::new();
    let first = should_dispatch(&mut cache, &manual("crash", "1.0"));
    // The manual submission left the cache untouched, so an automatic one
    // with the same fields still dispatches.
    let second = should_dispatch(&mut cache, &automatic("crash", "1.0"));
    assert!(first);
    assert!(second);
}

#[test]
fn failed_sink_is_not_rolled_back() {
    let mut cache = Cache::new();
    let first = should_dispatch(&mut cache, &automatic("x", "1.0"));
    assert!(first);
    // The sink call fails: the caller sees the failure ...
    let r = respond(Some(SinkOutcome::Failed));
    assert!(matches!(r, Err(HandleError::NotificationFailed)));
    // ... yet the key stays recorded, so the retry is silently suppressed.
    let second = should_dispatch(&mut cache, &automatic("x", "1.0"));
    assert!(!second);
    assert_eq!(respond(None).unwrap(), "OK");
}

#[test]
fn fifty_identical_automatic_dispatch_once() {
    let mut cache = Cache::new();
    let mut dispatched = 0;
    for _ in 0..50 {
        if should_dispatch(&mut cache, &automatic("crash", "1.0")) {
            dispatched += 1;
        }
    }
    assert_eq!(dispatched, 1);
}

#[test]
fn dedup_key_joins_version_and_message() {
    assert_eq!(dedup_key("1.0", "crash"), "1.0 - crash");
    assert_eq!(dedup_key("", ""), " - ");
}

#[test]
fn dedup_keys_differ_by_version() {
    assert_ne!(dedup_key("1.0", "crash"), dedup_key("2.0", "crash"));
}

#[test]
fn respond_maps_each_outcome() {
    assert_eq!(respond(None).unwrap(), "OK");
    assert_eq!(respond(Some(SinkOutcome::Delivered)).unwrap(), "OK");
    assert!(matches!(
        respond(Some(SinkOutcome::Failed)),
        Err(HandleError::NotificationFailed)
    ));
}
