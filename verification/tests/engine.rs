use cloud_download::download::batch_summary;
use cloud_download::download::decide_download_response;
use cloud_download::download::item_failure_entry;
use cloud_download::download::progress_retrying;
use cloud_download::download::retry_decide;
use cloud_download::download::ResponseDecision;
use cloud_download::download::RetryDecision;
use cloud_download::download::StreamProgress;
use cloud_download::download::MAX_DOWNLOAD_ATTEMPTS;
use cloud_download::tree::Dirent;
use cloud_download::tree::TreeDiscovery;

fn dir_entry(path: &str, name: &str) -> Dirent {
    Dirent {
        is_dir: true,
        folder_path: path.to_string(),
        folder_name: name.to_string(),
        file_path: String::new(),
        file_name: String::new(),
        size: 0,
    }
}

fn file_entry(path: &str, name: &str, size: u64) -> Dirent {
    Dirent {
        is_dir: false,
        folder_path: String::new(),
        folder_name: String::new(),
        file_path: path.to_string(),
        file_name: name.to_string(),
        size,
    }
}

#[test]
fn discovery_of_nested_folders_yields_a_valid_tree() {
    let mut t = TreeDiscovery::new();

    let root = t.next_dir().expect("root queued");
    assert_eq!(root, "/");
    t.apply_listing(
        &root,
        &vec![
            dir_entry("/docs", "docs"),
            file_entry("/a.txt", "a.txt", 5),
        ],
    );

    let docs = t.next_dir().expect("docs queued");
    assert_eq!(docs, "/docs");
    t.apply_listing(&docs, &vec![file_entry("/docs/b.txt", "b.txt", 7)]);

    assert_eq!(t.next_dir(), None);
    let nodes = t.into_nodes();

    // Breadth-first, deterministic order.
    let ids: Vec<&str> = nodes.iter().map(|n| n.id.as_str()).collect();
    assert_eq!(ids, vec!["/", "/docs", "/a.txt", "/docs/b.txt"]);

    // Exactly one root without a parent.
    let roots: Vec<_> = nodes.iter().filter(|n| n.parent.is_none()).collect();
    assert_eq!(roots.len(), 1);
    assert_eq!(roots[0].id, "/");
    assert!(roots[0].is_dir);

    // Every other node's parent is a directory present in the result.
    for n in nodes.iter() {
        if let Some(p) = &n.parent {
            assert!(nodes.iter().any(|m| &m.id == p && m.is_dir));
        }
    }

    // Directories carry no size; files keep theirs.
    for n in nodes.iter() {
        if n.is_dir {
            assert_eq!(n.size, 0);
        }
    }
    assert_eq!(nodes[2].size, 5);
    assert_eq!(nodes[3].size, 7);
}

#[test]
fn resumed_stream_reports_the_shifted_total_and_reaches_it() {
    // A local prefix of 4 bytes; the server owes 6 more of a 10-byte file.
    let mut s = StreamProgress::begin("f.bin", 4, true, Some(6));
    assert!(s.append_mode());
    assert_eq!(s.total, Some(10));
    assert_eq!(s.downloaded, 4);

    let ev = s.on_chunk(3);
    assert_eq!(ev.status, "downloading");
    assert_eq!(ev.downloaded, 7);
    assert_eq!(ev.total, Some(10));
    assert_eq!(ev.error, None);

    let ev = s.on_chunk(3);
    assert_eq!(ev.downloaded, 10);

    let done = s.finish();
    assert_eq!(done.status, "done");
    assert_eq!(done.downloaded, 10);
    assert_eq!(done.total, Some(10));
    assert_eq!(done.file_path, "f.bin");
}

#[test]
fn rejected_range_restarts_from_zero_and_completes() {
    // The resume attempt came back 416: drop the local file and start over.
    assert_eq!(
        decide_download_response(416, 5, false),
        ResponseDecision::RestartFromZero
    );

    // The reissued request streams the whole file from byte zero.
    let mut s = StreamProgress::begin("f.bin", 0, false, Some(7));
    assert!(!s.append_mode());
    assert_eq!(s.total, Some(7));
    s.on_chunk(4);
    let ev = s.on_chunk(3);
    assert_eq!(ev.downloaded, 7);
    let done = s.finish();
    assert_eq!(done.status, "done");
    assert_eq!(done.downloaded, 7);
}

#[test]
fn response_decisions_follow_the_status() {
    assert_eq!(decide_download_response(200, 0, false), ResponseDecision::Stream);
    assert_eq!(decide_download_response(206, 9, false), ResponseDecision::Stream);
    assert_eq!(decide_download_response(416, 0, false), ResponseDecision::FailPlain);
    assert_eq!(decide_download_response(404, 0, false), ResponseDecision::FailWithBody);
    assert_eq!(decide_download_response(403, 3, false), ResponseDecision::FailWithBody);
    // After the restart a second range failure can only be reported.
    assert_eq!(decide_download_response(416, 0, true), ResponseDecision::FailWithBody);
    assert_eq!(decide_download_response(200, 0, true), ResponseDecision::Stream);
}

#[test]
fn missing_content_length_leaves_total_absent() {
    let mut s = StreamProgress::begin("f.bin", 4, true, None);
    assert_eq!(s.total, None);
    let ev = s.on_chunk(2);
    assert_eq!(ev.total, None);
    assert_eq!(ev.downloaded, 6);
}

#[test]
fn transient_failures_back_off_linearly() {
    let r = retry_decide("f", 1, MAX_DOWNLOAD_ATTEMPTS, Err("timed out".to_string()));
    match r {
        RetryDecision::RetryAfter { event, sleep_ms } => {
            assert_eq!(sleep_ms, 500);
            assert_eq!(event.status, "retrying");
            assert_eq!(event.error, Some("timed out".to_string()));
            assert_eq!(event.file_path, "f");
        }
        _ => panic!("expected a retry"),
    }
    let r = retry_decide("f", 2, MAX_DOWNLOAD_ATTEMPTS, Err("timed out".to_string()));
    match r {
        RetryDecision::RetryAfter { sleep_ms, .. } => assert_eq!(sleep_ms, 1000),
        _ => panic!("expected a retry"),
    }
}

#[test]
fn spent_budget_fails_with_the_retry_count() {
    let r = retry_decide("f", 3, MAX_DOWNLOAD_ATTEMPTS, Err("timed out".to_string()));
    match r {
        RetryDecision::FailFinal { event, message } => {
            assert_eq!(message, "timed out (retried 3 times)");
            assert!(message.contains("3"));
            assert_eq!(event.status, "retrying");
        }
        _ => panic!("expected the final failure"),
    }
}

#[test]
fn auth_errors_are_propagated_without_retry() {
    let r = retry_decide("f", 1, MAX_DOWNLOAD_ATTEMPTS, Err("PASSWORD_REQUIRED".to_string()));
    match r {
        RetryDecision::Propagate { message } => assert_eq!(message, "PASSWORD_REQUIRED"),
        _ => panic!("an auth sentinel must not be retried"),
    }
    let r = retry_decide("f", 1, MAX_DOWNLOAD_ATTEMPTS, Err("PASSWORD_INVALID".to_string()));
    assert!(matches!(r, RetryDecision::Propagate { .. }));
}

#[test]
fn successful_attempt_ends_the_item() {
    let r = retry_decide("f", 1, MAX_DOWNLOAD_ATTEMPTS, Ok(()));
    assert!(matches!(r, RetryDecision::Done));
}

#[test]
fn retrying_event_carries_the_failure() {
    let ev = progress_retrying("remote/a.txt", "connection reset");
    assert_eq!(ev.status, "retrying");
    assert_eq!(ev.downloaded, 0);
    assert_eq!(ev.total, None);
    assert_eq!(ev.error, Some("connection reset".to_string()));
}

#[test]
fn clean_batch_is_a_success() {
    assert_eq!(batch_summary(&vec![]), Ok(()));
}

#[test]
fn one_failing_item_does_not_silence_the_others() {
    // Items 1 and 3 run to completion and close with their own done events;
    // only item 2's failure enters the summary.
    let s1 = StreamProgress::begin("remote/a.txt", 0, false, Some(3));
    let s3 = StreamProgress::begin("remote/c.txt", 0, false, Some(4));
    assert_eq!(s1.finish().status, "done");
    assert_eq!(s3.finish().status, "done");

    let entry = item_failure_entry("remote/b.txt", "timed out (retried 3 times)");
    let r = batch_summary(&vec![entry]);
    match r {
        Err(m) => {
            assert_eq!(
                m,
                "some files failed to download: remote/b.txt: timed out (retried 3 times)"
            );
            assert!(m.contains("remote/b.txt"));
        }
        Ok(()) => panic!("a failed item must fail the batch"),
    }
}

#[test]
fn all_failures_stand_in_the_summary() {
    let e1 = item_failure_entry("a", "x");
    let e2 = item_failure_entry("b", "y");
    let r = batch_summary(&vec![e1, e2]);
    assert_eq!(r, Err("some files failed to download: a: x; b: y".to_string()));
}
