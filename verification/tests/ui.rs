use crane::ui::{BuildTable, Property, RetryWindow, Status, Summary, HISTORY_LIMIT};

fn shas(table: &BuildTable) -> Vec<String> {
    let mut all = Vec::new();
    let mut i = 0;
    while i < table.len() {
        all.push(table.get(i).sha.clone());
        i += 1;
    }
    all
}

#[test]
fn captions() {
    assert_eq!(Status::Succeeded.text(), "Succeeded");
    assert_eq!(Status::Pending.text(), "Pending");
    assert_eq!(Status::Failed.text(), "Failed");
}

#[test]
fn property_keeps_name_and_value() {
    let p = Property::new("Owner", "octo");
    assert_eq!(p.name, "Owner");
    assert_eq!(p.value, "octo");
}

#[test]
fn new_summary_is_pending_and_empty() {
    let summary = Summary::new(vec![Property::new("Repo", "cat"), Property::new("Branch", "main")], 42);
    assert_eq!(summary.status(), Status::Pending);
    assert_eq!(summary.properties().len(), 2);
    assert_eq!(summary.properties()[0].name, "Repo");
    assert_eq!(summary.properties()[1].value, "main");
    assert_eq!(summary.builds().len(), 0);
    assert!(summary.last_error().is_none());
    assert_eq!(summary.retry_window(), RetryWindow { start_time: 42, due_time: 42 });
}

#[test]
fn recording_a_new_build_appends_it() {
    let mut summary = Summary::new(Vec::new(), 0);
    summary.record_build("aaa", Status::Pending);
    summary.record_build("bbb", Status::Failed);
    assert_eq!(summary.status(), Status::Failed);
    assert_eq!(shas(summary.builds()), vec!["aaa", "bbb"]);
    assert_eq!(summary.builds().get(0).status, Status::Pending);
    assert_eq!(summary.builds().get(1).status, Status::Failed);
}

#[test]
fn recording_a_known_build_updates_it_in_place() {
    let mut summary = Summary::new(Vec::new(), 0);
    summary.record_build("aaa", Status::Pending);
    summary.record_build("bbb", Status::Pending);
    summary.record_build("aaa", Status::Succeeded);
    assert_eq!(summary.status(), Status::Succeeded);
    assert_eq!(shas(summary.builds()), vec!["aaa", "bbb"]);
    assert_eq!(summary.builds().get(0).status, Status::Succeeded);
    assert_eq!(summary.builds().get(1).status, Status::Pending);
}

#[test]
fn history_keeps_the_ten_latest_builds() {
    assert_eq!(HISTORY_LIMIT, 10);
    let mut table = BuildTable::new();
    for i in 0..10 {
        table.record(&format!("sha{}", i), Status::Succeeded);
    }
    assert_eq!(table.len(), 10);
    table.record("sha10", Status::Failed);
    assert_eq!(table.len(), 10);
    assert_eq!(table.get(0).sha, "sha1");
    assert_eq!(table.get(9).sha, "sha10");
    assert_eq!(table.get(9).status, Status::Failed);
    table.record("sha5", Status::Pending);
    assert_eq!(table.len(), 10);
    assert_eq!(table.get(4).sha, "sha5");
    assert_eq!(table.get(4).status, Status::Pending);
    assert_eq!(table.get(0).sha, "sha1");
    table.record("sha11", Status::Succeeded);
    assert_eq!(table.get(0).sha, "sha2");
    assert_eq!(table.get(9).sha, "sha11");
}

#[test]
fn errors_are_shown_until_cleared_or_replaced() {
    let mut summary = Summary::new(Vec::new(), 0);
    summary.record_error("first".to_string());
    assert_eq!(summary.last_error(), Some("first"));
    summary.record_error("second".to_string());
    assert_eq!(summary.last_error(), Some("second"));
    summary.clear_error();
    assert_eq!(summary.last_error(), None);
}

#[test]
fn retry_window_counts_down() {
    let mut summary = Summary::new(Vec::new(), 0);
    summary.reset_retry_window(1000, 5500);
    let window = summary.retry_window();
    assert_eq!(window.window_millis(), 4500);
    assert_eq!(window.remaining_millis(1000), 4500);
    assert_eq!(window.remaining_millis(2500), 3000);
    assert_eq!(window.remaining_secs(2500), 3);
    assert_eq!(window.remaining_secs(4501), 0);
    assert_eq!(window.remaining_millis(5500), 0);
    assert_eq!(window.remaining_millis(9000), 0);
}

#[test]
fn retry_window_that_closes_early_is_empty() {
    let window = RetryWindow { start_time: 100, due_time: 50 };
    assert_eq!(window.window_millis(), 0);
    assert_eq!(window.remaining_millis(60), 0);
    assert_eq!(window.remaining_millis(40), 10);
    assert_eq!(RetryWindow::new(7), RetryWindow { start_time: 7, due_time: 7 });
}
