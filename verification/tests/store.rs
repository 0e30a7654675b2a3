use converty::clock::Timestamp;
use converty::db::jobs::{
    cancel_job, cleanup_old_jobs, clear_job_drive_file_id, count_active_jobs,
    count_user_active_jobs, create_job, default_limit, delete_job, get_expired_jobs, get_job,
    get_job_drive_file_id, get_job_retry_count, get_job_webhook, get_next_pending_job,
    get_timed_out_jobs, get_user_job_limit, get_user_jobs, list_jobs, mark_job_timed_out,
    reset_job_for_retry, update_job_drive_file_id, update_job_status, JobRecord, JobStore,
    JobsQuery, StoreError, DEFAULT_JOB_LIMIT,
};

fn at(secs: i64) -> Timestamp {
    Timestamp::from_parts(secs, 0).unwrap()
}

fn rec(id: &str, owner: Option<&str>, status: &str, created_at: &str) -> JobRecord {
    JobRecord {
        id: id.to_string(),
        api_key_id: owner.map(|s| s.to_string()),
        conversion_type: "image".to_string(),
        input_format: "png".to_string(),
        output_format: "jpg".to_string(),
        quality: None,
        status: status.to_string(),
        progress: 0,
        progress_message: None,
        input_path: format!("/in/{}", id),
        result_path: None,
        error: None,
        file_size_bytes: Some(1),
        created_at: created_at.to_string(),
        started_at: None,
        completed_at: None,
        updated_at: created_at.to_string(),
        priority: Some("normal".to_string()),
        webhook_url: None,
        source_url: None,
        expires_at: None,
        retry_count: Some(0),
        original_filename: None,
        drive_file_id: None,
    }
}

fn store_of(records: Vec<JobRecord>) -> JobStore {
    let mut store = JobStore::new();
    for r in records {
        create_job(&mut store, &r).unwrap();
    }
    store
}

fn ids(records: &[JobRecord]) -> Vec<String> {
    records.iter().map(|r| r.id.clone()).collect()
}

#[test]
fn test_create_get_delete() {
    let mut store = JobStore::new();
    assert!(create_job(&mut store, &rec("a", None, "pending", "2024-01-01T00:00:00+00:00")).is_ok());
    assert!(create_job(&mut store, &rec("b", None, "pending", "2024-01-02T00:00:00+00:00")).is_ok());
    assert_eq!(
        create_job(&mut store, &rec("a", Some("k"), "failed", "2024-01-03T00:00:00+00:00")),
        Err(StoreError::DuplicateId)
    );
    assert_eq!(store.jobs.len(), 2);
    assert_eq!(get_job(&store, "a").unwrap().status, "pending");
    assert_eq!(get_job(&store, "b").unwrap().input_path, "/in/b");
    assert!(get_job(&store, "c").is_none());
    assert_eq!(store.position("b"), 1);
    assert_eq!(store.position("zz"), 2);
    assert!(delete_job(&mut store, "a"));
    assert!(!delete_job(&mut store, "a"));
    assert_eq!(ids(&store.jobs), vec!["b"]);
}

#[test]
fn test_status_updates_follow_the_lifecycle() {
    let mut store = store_of(vec![rec("a", None, "pending", "2024-01-01T00:00:00+00:00")]);
    let t1 = at(1_704_067_200);
    let t2 = at(1_704_067_260);
    let t3 = at(1_704_067_320);
    assert!(!update_job_status(&mut store, "a", "completed", 100, None, None, Some("/r"), &t1));
    assert!(!update_job_status(&mut store, "a", "failed", 0, None, Some("e"), None, &t1));
    assert!(!update_job_status(&mut store, "a", "pending", 0, None, None, None, &t1));
    assert!(!update_job_status(&mut store, "a", "cancelled", 0, None, None, None, &t1));
    assert!(!update_job_status(&mut store, "a", "running", 0, None, None, None, &t1));
    assert!(!update_job_status(&mut store, "a", "processing", 101, None, None, None, &t1));
    assert!(!update_job_status(&mut store, "a", "processing", -1, None, None, None, &t1));
    assert!(!update_job_status(&mut store, "a", "processing", 5, None, None, Some("/r"), &t1));
    assert!(!update_job_status(&mut store, "a", "processing", 5, None, Some("e"), None, &t1));
    assert!(!update_job_status(&mut store, "missing", "processing", 0, None, None, None, &t1));
    assert_eq!(get_job(&store, "a").unwrap().updated_at, "2024-01-01T00:00:00+00:00");

    assert!(update_job_status(&mut store, "a", "processing", 0, Some("go"), None, None, &t1));
    let r = get_job(&store, "a").unwrap();
    assert_eq!(r.status, "processing");
    assert_eq!(r.progress_message, Some("go".to_string()));
    assert_eq!(r.started_at, Some("2024-01-01T00:00:00+00:00".to_string()));
    assert_eq!(r.updated_at, "2024-01-01T00:00:00+00:00");
    assert_eq!(r.completed_at, None);

    assert!(update_job_status(&mut store, "a", "processing", 40, None, None, None, &t2));
    let r = get_job(&store, "a").unwrap();
    assert_eq!(r.progress, 40);
    assert_eq!(r.progress_message, None);
    assert_eq!(r.started_at, Some("2024-01-01T00:00:00+00:00".to_string()));
    assert_eq!(r.updated_at, "2024-01-01T00:01:00+00:00");
    assert!(!update_job_status(&mut store, "a", "processing", 39, None, None, None, &t2));
    assert!(!update_job_status(&mut store, "a", "completed", 100, None, None, None, &t2));
    assert!(!update_job_status(&mut store, "a", "completed", 100, None, Some("e"), Some("/r"), &t2));
    assert!(!update_job_status(&mut store, "a", "failed", 40, None, None, None, &t2));
    assert!(!update_job_status(&mut store, "a", "completed", 30, None, None, Some("/r"), &t2));

    assert!(update_job_status(&mut store, "a", "completed", 100, Some("ok"), None, Some("/r"), &t3));
    let r = get_job(&store, "a").unwrap();
    assert_eq!(r.status, "completed");
    assert_eq!(r.result_path, Some("/r".to_string()));
    assert_eq!(r.error, None);
    assert_eq!(r.completed_at, Some("2024-01-01T00:02:00+00:00".to_string()));
    assert_eq!(r.started_at, Some("2024-01-01T00:00:00+00:00".to_string()));
    assert!(!update_job_status(&mut store, "a", "processing", 100, None, None, None, &t3));
    assert!(!update_job_status(&mut store, "a", "failed", 100, None, Some("e"), None, &t3));
    assert!(!cancel_job(&mut store, "a", &t3));
    assert!(!reset_job_for_retry(&mut store, "a", &t3));
}

#[test]
fn test_counts_and_limits() {
    let mut store = store_of(vec![
        rec("a", Some("k1"), "pending", "t"),
        rec("b", Some("k1"), "processing", "t"),
        rec("c", Some("k1"), "completed", "t"),
        rec("d", Some("k2"), "pending", "t"),
        rec("e", None, "pending", "t"),
        rec("f", Some("k1"), "cancelled", "t"),
        rec("g", Some("k1"), "failed", "t"),
        rec("h", Some("k1"), "Pending", "t"),
    ]);
    assert_eq!(count_active_jobs(&store), 4);
    assert_eq!(count_user_active_jobs(&store, "k1"), 2);
    assert_eq!(count_user_active_jobs(&store, "k2"), 1);
    assert_eq!(count_user_active_jobs(&store, "k3"), 0);
    assert_eq!(count_user_active_jobs(&store, ""), 0);

    assert_eq!(DEFAULT_JOB_LIMIT, 5);
    assert_eq!(get_user_job_limit(&store, "k1"), Err(StoreError::RowNotFound));
    store.set_job_limit("k1", None);
    store.set_job_limit("k2", Some(9));
    assert_eq!(get_user_job_limit(&store, "k1"), Ok(5));
    assert_eq!(get_user_job_limit(&store, "k2"), Ok(9));
    store.set_job_limit("k1", Some(-3));
    assert_eq!(get_user_job_limit(&store, "k1"), Ok(-3));
    assert_eq!(get_user_job_limit(&store, "k2"), Ok(9));
    assert_eq!(store.api_keys.len(), 2);
}

#[test]
fn test_retry_reset_and_cancel_records() {
    let mut failed = rec("a", None, "failed", "t");
    failed.progress = 80;
    failed.error = Some("boom".to_string());
    failed.started_at = Some("s".to_string());
    failed.completed_at = Some("c".to_string());
    failed.retry_count = None;
    let mut maxed = rec("m", None, "failed", "t");
    maxed.retry_count = Some(i64::MAX);
    let mut running = rec("b", None, "processing", "t");
    running.progress = 30;
    let mut store = store_of(vec![failed, running, maxed]);
    let now = at(1_704_067_200);

    assert!(!reset_job_for_retry(&mut store, "b", &now));
    assert!(!reset_job_for_retry(&mut store, "zz", &now));
    assert!(!reset_job_for_retry(&mut store, "m", &now));
    assert!(reset_job_for_retry(&mut store, "a", &now));
    let r = get_job(&store, "a").unwrap();
    assert_eq!(r.status, "pending");
    assert_eq!(r.progress, 0);
    assert_eq!(r.progress_message, Some("In coda per retry...".to_string()));
    assert_eq!(r.error, None);
    assert_eq!(r.started_at, None);
    assert_eq!(r.completed_at, None);
    assert_eq!(r.retry_count, Some(1));
    assert_eq!(r.updated_at, "2024-01-01T00:00:00+00:00");
    assert_eq!(get_job_retry_count(&store, "a"), 1);
    assert_eq!(get_job_retry_count(&store, "b"), 0);
    assert_eq!(get_job_retry_count(&store, "zz"), 0);
    assert_eq!(get_job_retry_count(&store, "m"), i64::MAX);

    assert!(cancel_job(&mut store, "b", &now));
    let r = get_job(&store, "b").unwrap();
    assert_eq!(r.status, "cancelled");
    assert_eq!(r.progress, 30);
    assert_eq!(r.progress_message, Some("Job cancellato dall'utente".to_string()));
    assert_eq!(r.completed_at, Some("2024-01-01T00:00:00+00:00".to_string()));
    assert_eq!(r.result_path, None);
    assert!(!cancel_job(&mut store, "b", &now));
    assert!(cancel_job(&mut store, "a", &now));
    assert!(!cancel_job(&mut store, "zz", &now));
}

#[test]
fn test_timeouts() {
    let mut old = rec("old", None, "processing", "2024-01-01T00:00:00+00:00");
    old.started_at = Some("2024-01-01T00:00:00+00:00".to_string());
    old.progress = 30;
    let mut fresh = rec("fresh", None, "processing", "2024-01-01T00:00:00+00:00");
    fresh.started_at = Some("2024-01-01T00:59:30+00:00".to_string());
    let unstarted = rec("unstarted", None, "processing", "2024-01-01T00:00:00+00:00");
    let mut done = rec("done", None, "completed", "2024-01-01T00:00:00+00:00");
    done.started_at = Some("2024-01-01T00:00:00+00:00".to_string());
    let mut store = store_of(vec![old, fresh, unstarted, done]);
    let now = at(1_704_070_800);
    assert_eq!(now.to_rfc3339(), "2024-01-01T01:00:00+00:00");
    assert_eq!(get_timed_out_jobs(&store, 600, &now).unwrap(), vec!["old"]);
    assert_eq!(get_timed_out_jobs(&store, 10, &now).unwrap(), vec!["old", "fresh"]);
    assert_eq!(get_timed_out_jobs(&store, 3600, &now).unwrap(), Vec::<String>::new());
    assert_eq!(get_timed_out_jobs(&store, i64::MIN, &now), Err(StoreError::TimeOutOfRange));
    assert_eq!(get_timed_out_jobs(&store, i64::MAX, &now), Err(StoreError::TimeOutOfRange));

    assert!(mark_job_timed_out(&mut store, "old", &now));
    let r = get_job(&store, "old").unwrap();
    assert_eq!(r.status, "failed");
    assert_eq!(r.progress, 30);
    assert_eq!(r.progress_message, Some("Job timeout".to_string()));
    assert_eq!(
        r.error,
        Some("Il job ha superato il tempo massimo di esecuzione".to_string())
    );
    assert_eq!(r.completed_at, Some("2024-01-01T01:00:00+00:00".to_string()));
    assert!(!mark_job_timed_out(&mut store, "old", &now));
    assert!(!mark_job_timed_out(&mut store, "done", &now));
    assert!(!mark_job_timed_out(&mut store, "zz", &now));
}

#[test]
fn test_cleanup_removes_old_finished_jobs() {
    let mut a = rec("a", None, "completed", "2023-12-01T00:00:00+00:00");
    a.result_path = Some("/out/a".to_string());
    let b = rec("b", None, "failed", "2023-12-15T00:00:00+00:00");
    let c = rec("c", None, "pending", "2023-11-01T00:00:00+00:00");
    let mut d = rec("d", None, "completed", "2023-12-31T12:00:00+00:00");
    d.result_path = Some("/out/d".to_string());
    let e = rec("e", None, "cancelled", "2023-01-01T00:00:00+00:00");
    let mut store = store_of(vec![a, b, c, d, e]);
    let now = at(1_704_067_200);

    let before = ids(&store.jobs);
    assert_eq!(cleanup_old_jobs(&mut store, i64::MAX, &now), Err(StoreError::TimeOutOfRange));
    assert_eq!(ids(&store.jobs), before);
    let (removed, files) = cleanup_old_jobs(&mut store, 30, &now).unwrap();
    assert_eq!(removed, 2);
    assert_eq!(files, vec!["/in/a", "/out/a", "/in/e"]);
    assert_eq!(ids(&store.jobs), vec!["b", "c", "d"]);
    let (removed, files) = cleanup_old_jobs(&mut store, 0, &now).unwrap();
    assert_eq!(removed, 2);
    assert_eq!(files, vec!["/in/b", "/in/d", "/out/d"]);
    assert_eq!(ids(&store.jobs), vec!["c"]);
    let (removed, files) = cleanup_old_jobs(&mut store, -400, &now).unwrap();
    assert_eq!(removed, 0);
    assert!(files.is_empty());
}

#[test]
fn test_expired_jobs() {
    let mut a = rec("a", None, "completed", "t");
    a.expires_at = Some("2024-01-01T00:00:00+00:00".to_string());
    a.result_path = Some("/r".to_string());
    let mut b = rec("b", None, "completed", "t");
    b.expires_at = Some("2024-01-02T00:00:00+00:00".to_string());
    let mut c = rec("c", None, "failed", "t");
    c.expires_at = Some("2023-01-01T00:00:00+00:00".to_string());
    let d = rec("d", None, "completed", "t");
    let store = store_of(vec![a, b, c, d]);
    assert_eq!(get_expired_jobs(&store, &at(1_704_067_200)), Vec::<String>::new());
    assert_eq!(get_expired_jobs(&store, &at(1_704_067_201)), vec!["a"]);
    assert_eq!(get_expired_jobs(&store, &at(1_704_240_000)), vec!["a", "b"]);
}

#[test]
fn test_next_pending_job_by_priority_then_age() {
    assert!(get_next_pending_job(&JobStore::new()).is_none());
    let mut low = rec("low", None, "pending", "2024-01-01T00:00:00+00:00");
    low.priority = Some("low".to_string());
    let mut n1 = rec("n1", None, "pending", "2024-01-03T00:00:00+00:00");
    n1.priority = None;
    let n2 = rec("n2", None, "pending", "2024-01-02T00:00:00+00:00");
    let mut odd = rec("odd", None, "pending", "2024-01-02T00:00:00+00:00");
    odd.priority = Some("urgent".to_string());
    let mut busy = rec("busy", None, "processing", "2023-01-01T00:00:00+00:00");
    busy.priority = Some("high".to_string());
    let mut store = store_of(vec![low, n1, n2, odd, busy]);
    assert_eq!(get_next_pending_job(&store).unwrap().id, "n2");
    let mut h1 = rec("h1", None, "pending", "2024-02-01T00:00:00+00:00");
    h1.priority = Some("high".to_string());
    let mut h2 = rec("h2", None, "pending", "2024-01-15T00:00:00+00:00");
    h2.priority = Some("high".to_string());
    create_job(&mut store, &h1).unwrap();
    assert_eq!(get_next_pending_job(&store).unwrap().id, "h1");
    create_job(&mut store, &h2).unwrap();
    assert_eq!(get_next_pending_job(&store).unwrap().id, "h2");
    for id in ["h1", "h2", "n1", "n2", "odd"] {
        assert!(delete_job(&mut store, id));
    }
    assert_eq!(get_next_pending_job(&store).unwrap().id, "low");
    assert!(delete_job(&mut store, "low"));
    assert!(get_next_pending_job(&store).is_none());
}

#[test]
fn test_list_jobs_filters_orders_and_pages() {
    let store = store_of(vec![
        rec("a", Some("k1"), "pending", "2024-01-01T00:00:00+00:00"),
        rec("b", Some("k2"), "completed", "2024-01-03T00:00:00+00:00"),
        rec("c", Some("k1"), "completed", "2024-01-02T00:00:00+00:00"),
        rec("d", None, "failed", "2024-01-03T00:00:00+00:00"),
        rec("e", Some("k1"), "completed", "2024-01-05T00:00:00+00:00"),
    ]);
    let all = |limit: i64, offset: i64| JobsQuery {
        status: None,
        conversion_type: None,
        api_key_id: None,
        limit,
        offset,
    };
    assert_eq!(default_limit(), 50);
    let page = list_jobs(&store, &all(50, 0));
    assert_eq!(ids(&page.jobs), vec!["e", "b", "d", "c", "a"]);
    assert_eq!((page.total, page.limit, page.offset), (5, 50, 0));
    assert_eq!(ids(&list_jobs(&store, &all(2, 1)).jobs), vec!["b", "d"]);
    assert_eq!(ids(&list_jobs(&store, &all(2, 4)).jobs), vec!["a"]);
    assert_eq!(ids(&list_jobs(&store, &all(2, 9)).jobs), Vec::<String>::new());
    assert_eq!(ids(&list_jobs(&store, &all(0, 0)).jobs), Vec::<String>::new());
    assert_eq!(ids(&list_jobs(&store, &all(-1, 3)).jobs), vec!["c", "a"]);
    assert_eq!(ids(&list_jobs(&store, &all(1, -5)).jobs), vec!["e"]);
    assert_eq!(list_jobs(&store, &all(1, -5)).offset, -5);
    assert_eq!(list_jobs(&store, &all(i64::MAX, i64::MAX)).total, 5);

    let query = JobsQuery {
        status: Some("completed".to_string()),
        conversion_type: Some("image".to_string()),
        api_key_id: Some("k1".to_string()),
        limit: 10,
        offset: 0,
    };
    let page = list_jobs(&store, &query);
    assert_eq!(ids(&page.jobs), vec!["e", "c"]);
    assert_eq!(page.total, 2);
    let query = JobsQuery {
        status: None,
        conversion_type: Some("audio".to_string()),
        api_key_id: None,
        limit: 10,
        offset: 0,
    };
    assert_eq!(list_jobs(&store, &query).total, 0);

    assert_eq!(ids(&get_user_jobs(&store, "k1", 2)), vec!["e", "c"]);
    assert_eq!(ids(&get_user_jobs(&store, "k1", -1)), vec!["e", "c", "a"]);
    assert_eq!(ids(&get_user_jobs(&store, "k9", 5)), Vec::<String>::new());
}

#[test]
fn test_webhook_and_drive_file_fields() {
    let mut a = rec("a", None, "completed", "t");
    a.webhook_url = Some("http://h".to_string());
    let mut store = store_of(vec![a, rec("b", None, "pending", "t")]);
    let now = at(1_704_067_200);
    assert_eq!(get_job_webhook(&store, "a"), Some("http://h".to_string()));
    assert_eq!(get_job_webhook(&store, "b"), None);
    assert_eq!(get_job_webhook(&store, "zz"), None);
    assert_eq!(get_job_drive_file_id(&store, "a"), None);
    assert!(update_job_drive_file_id(&mut store, "a", "file-1", &now));
    assert!(!update_job_drive_file_id(&mut store, "zz", "file-1", &now));
    assert_eq!(get_job_drive_file_id(&store, "a"), Some("file-1".to_string()));
    assert_eq!(get_job(&store, "a").unwrap().updated_at, "2024-01-01T00:00:00+00:00");
    assert_eq!(get_job(&store, "a").unwrap().status, "completed");
    assert!(clear_job_drive_file_id(&mut store, "a", &at(1_704_067_260)));
    assert!(!clear_job_drive_file_id(&mut store, "zz", &now));
    assert_eq!(get_job_drive_file_id(&store, "a"), None);
    assert_eq!(get_job(&store, "a").unwrap().updated_at, "2024-01-01T00:01:00+00:00");
    assert_eq!(get_job_drive_file_id(&store, "zz"), None);
}

#[test]
fn test_history_of_an_owner() {
    use_history();
}

fn use_history() {
    let mut a = rec("a", Some("k1"), "completed", "2024-01-01T00:00:00+00:00");
    a.file_size_bytes = None;
    a.original_filename = Some("a.png".to_string());
    a.drive_file_id = Some("d1".to_string());
    a.completed_at = Some("2024-01-01T00:00:05+00:00".to_string());
    let mut b = rec("b", Some("k1"), "failed", "2024-01-09T12:00:00+00:00");
    b.input_format = "gif".to_string();
    let mut c = rec("c", Some("k1"), "completed", "2024-01-10T00:00:00+00:00");
    c.output_format = "webp".to_string();
    let d = rec("d", Some("k2"), "completed", "2024-01-10T00:00:00+00:00");
    let e = rec("e", None, "completed", "2024-01-10T00:00:00+00:00");
    let store = store_of(vec![a, b, c, d, e]);
    let now = at(1_704_888_000);
    assert_eq!(now.to_rfc3339(), "2024-01-10T12:00:00+00:00");

    let all = converty::db::stats::get_user_conversions(&store, "k1", 50, &now);
    let ids: Vec<&str> = all.iter().map(|i| i.id.as_str()).collect();
    assert_eq!(ids, vec!["c", "b", "a"]);
    assert_eq!(all[2].file_size, 0);
    assert_eq!(all[0].file_size, 1);
    assert_eq!(all[2].original_filename, Some("a.png".to_string()));
    assert_eq!(all[2].drive_file_id, Some("d1".to_string()));
    assert_eq!(all[2].completed_at, Some("2024-01-01T00:00:05+00:00".to_string()));
    assert_eq!(all[1].input_format, "gif");
    assert_eq!(all[0].output_format, "webp");
    assert_eq!(all[0].status, "completed");
    assert_eq!(converty::db::stats::get_user_conversions(&store, "k1", 2, &now).len(), 2);
    assert!(converty::db::stats::get_user_conversions(&store, "k9", 50, &now).is_empty());

    let shown = |date: Option<&str>, input: Option<&str>, output: Option<&str>, status: Option<&str>| {
        let filters = converty::db::stats::HistoryFilters {
            date_filter: date.map(|s| s.to_string()),
            input_format: input.map(|s| s.to_string()),
            output_format: output.map(|s| s.to_string()),
            status: status.map(|s| s.to_string()),
        };
        let items = converty::db::stats::get_user_conversions_filtered(
            &store,
            "k1",
            50,
            Some(&filters),
            &now,
        )
        .unwrap();
        items.iter().map(|i| i.id.clone()).collect::<Vec<String>>()
    };
    assert_eq!(shown(None, None, None, None), vec!["c", "b", "a"]);
    assert_eq!(shown(Some("today"), None, None, None), vec!["c", "b"]);
    assert_eq!(shown(Some("week"), None, None, None), vec!["c", "b"]);
    assert_eq!(shown(Some("month"), None, None, None), vec!["c", "b", "a"]);
    assert_eq!(shown(Some("all"), None, None, None), vec!["c", "b", "a"]);
    assert_eq!(shown(Some("year"), None, None, None), vec!["c", "b", "a"]);
    assert_eq!(shown(None, Some("gif"), None, None), vec!["b"]);
    assert_eq!(shown(None, Some(""), None, None), vec!["c", "b", "a"]);
    assert_eq!(shown(None, None, Some("webp"), None), vec!["c"]);
    assert_eq!(shown(None, None, Some(""), Some("")), vec!["c", "b", "a"]);
    assert_eq!(shown(None, None, None, Some("all")), vec!["c", "b", "a"]);
    assert_eq!(shown(None, None, None, Some("failed")), vec!["b"]);
    assert_eq!(shown(Some("week"), Some("png"), Some("webp"), Some("completed")), vec!["c"]);
    assert_eq!(shown(Some("week"), Some("png"), Some("jpg"), Some("completed")), Vec::<String>::new());
    let edge = converty::db::stats::HistoryFilters {
        date_filter: Some("today".to_string()),
        input_format: None,
        output_format: None,
        status: None,
    };
    let at_cutoff = at(1_704_844_800 + 86_400);
    let items =
        converty::db::stats::get_user_conversions_filtered(&store, "k1", 50, Some(&edge), &at_cutoff)
            .unwrap();
    assert_eq!(items.len(), 1);
    assert_eq!(items[0].id, "c");
}
