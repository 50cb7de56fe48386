use nunu_cli::api::{
    GetUploadUrlsResponse, MultipartUploadResponse, SinglePartUploadResponse, UploadUrlPart,
    UploadedPart,
};
use nunu_cli::engine::{UploadAction, UploadEngine, UploadOptions, UploadPhase};
use nunu_cli::error::Error;

fn options(parallel: usize, force_multipart: bool) -> UploadOptions {
    UploadOptions {
        name: "build".to_string(),
        platform: "android".to_string(),
        description: Some("desc".to_string()),
        upload_timeout: Some(30),
        auto_delete: true,
        deletion_policy: Some("least_recent".to_string()),
        force_multipart,
        parallel,
        details: None,
        tags: Some(vec!["t1".to_string()]),
    }
}

fn multi_response(file_size: u64, part_size: usize) -> MultipartUploadResponse {
    let total_parts = ((file_size - 1) / part_size as u64 + 1) as usize;
    MultipartUploadResponse {
        build_id: "bid".to_string(),
        upload_id: "uid".to_string(),
        object_key: "key".to_string(),
        total_parts,
        part_size,
    }
}

fn urls_for(nums: &[u64]) -> GetUploadUrlsResponse {
    GetUploadUrlsResponse {
        upload_urls: nums
            .iter()
            .map(|n| UploadUrlPart { part_number: *n, url: format!("https://store.test/{n}") })
            .collect(),
    }
}

/// Drives a full multipart flow, handing back `etag-<n>` for part `n`,
/// and returns the completion request's part list plus the progress
/// values observed after each event.
fn run_multipart(file_size: u64, part_size: usize, parallel: usize) -> (Vec<UploadedPart>, Vec<u64>) {
    let mut engine = UploadEngine::new(options(parallel, true), "app.apk".to_string(), file_size);
    let mut progress: Vec<u64> = vec![engine.bytes_transferred()];
    let mut action = engine.start();
    match action {
        UploadAction::InitiateMultipart { ref request } => assert!(request.multipart),
        _ => panic!("expected the initiate action"),
    }
    action = engine.on_multi_initiated(multi_response(file_size, part_size));
    let completion;
    loop {
        progress.push(engine.bytes_transferred());
        match action {
            UploadAction::RequestPartUrls { params } => {
                assert!(params.part_numbers.len() <= parallel);
                action = engine.on_part_urls(urls_for(&params.part_numbers));
            }
            UploadAction::TransferParts { transfers } => {
                assert!(transfers.len() <= parallel);
                // transfers within a batch finish in no fixed order
                let mut parts: Vec<UploadedPart> = transfers
                    .iter()
                    .map(|t| UploadedPart {
                        part_number: t.part_number,
                        etag: format!("etag-{}", t.part_number),
                    })
                    .collect();
                parts.reverse();
                action = engine.on_parts_transferred(parts);
            }
            UploadAction::CompleteMultipart { request } => {
                completion = request;
                break;
            }
            _ => panic!("unexpected action in the multipart flow"),
        }
    }
    progress.push(engine.bytes_transferred());
    let final_action = engine.on_complete_acknowledged();
    match final_action {
        UploadAction::Conclude { outcome } => assert_eq!(outcome.unwrap(), "bid"),
        _ => panic!("expected the flow to conclude"),
    }
    assert_eq!(engine.current_phase(), UploadPhase::Done);
    (completion.parts, progress)
}

#[test]
fn test_multipart_completion_is_ascending_and_complete() {
    let (parts, _) = run_multipart(10, 3, 2);
    assert_eq!(parts.len(), 4);
    for (i, p) in parts.iter().enumerate() {
        assert_eq!(p.part_number, i as u64 + 1);
        assert_eq!(p.etag, format!("etag-{}", i + 1));
    }
}

#[test]
fn test_progress_monotone_and_final_equals_file_size() {
    let (_, progress) = run_multipart(100, 7, 4);
    for w in progress.windows(2) {
        assert!(w[0] <= w[1]);
    }
    assert_eq!(*progress.last().unwrap(), 100);
}

#[test]
fn test_batches_never_exceed_concurrency() {
    // asserted inside the driver on every RequestPartUrls and TransferParts
    let (parts, _) = run_multipart(80, 10, 3);
    assert_eq!(parts.len(), 8);
}

#[test]
fn test_concurrency_one_equals_concurrency_eight() {
    let (sequential, _) = run_multipart(1000, 64, 1);
    let (concurrent, _) = run_multipart(1000, 64, 8);
    assert_eq!(sequential, concurrent);
}

#[test]
fn test_routing_at_the_single_part_ceiling() {
    let three_gib: u64 = 3 * 1024 * 1024 * 1024;
    let mut at_limit = UploadEngine::new(options(4, false), "a.apk".to_string(), three_gib);
    match at_limit.start() {
        UploadAction::RequestUploadUrl { request } => assert!(!request.multipart),
        _ => panic!("exactly the ceiling must stay single-part"),
    }
    let mut over_limit = UploadEngine::new(options(4, false), "a.apk".to_string(), three_gib + 1);
    match over_limit.start() {
        UploadAction::InitiateMultipart { request } => assert!(request.multipart),
        _ => panic!("one byte over the ceiling must go multipart"),
    }
    let mut forced = UploadEngine::new(options(4, true), "a.apk".to_string(), 10);
    match forced.start() {
        UploadAction::InitiateMultipart { .. } => {}
        _ => panic!("force_multipart must route to multipart"),
    }
}

#[test]
fn test_part_failure_aborts_once_with_session_ids() {
    let mut engine = UploadEngine::new(options(2, true), "a.apk".to_string(), 10);
    engine.start();
    let action = engine.on_multi_initiated(multi_response(10, 3));
    let params = match action {
        UploadAction::RequestPartUrls { params } => params,
        _ => panic!("expected a part-URL request"),
    };
    engine.on_part_urls(urls_for(&params.part_numbers));
    // one transfer of the batch fails: the flow reports the first error
    let abort = engine.on_remote_failed(Error::UploadError("Status 500: boom".to_string()));
    match abort {
        UploadAction::AbortUpload { build_id, upload_id, object_key } => {
            assert_eq!(build_id, "bid");
            assert_eq!(upload_id.as_deref(), Some("uid"));
            assert_eq!(object_key.as_deref(), Some("key"));
        }
        _ => panic!("a part failure must abort the session"),
    }
    let done = engine.on_abort_acknowledged(true);
    match done {
        UploadAction::Conclude { outcome } => match outcome {
            Err(Error::UploadError(m)) => assert_eq!(m, "Status 500: boom"),
            _ => panic!("the first error must come back"),
        },
        _ => panic!("after the abort the flow must conclude, never complete"),
    }
    assert_eq!(engine.current_phase(), UploadPhase::Failed);
}

#[test]
fn test_single_part_flow() {
    let mut engine = UploadEngine::new(options(4, false), "a.apk".to_string(), 42);
    match engine.start() {
        UploadAction::RequestUploadUrl { request } => {
            assert_eq!(request.file_name, "a.apk");
            assert_eq!(request.file_size, 42);
            assert_eq!(request.platform, "android");
            assert!(!request.multipart);
            assert_eq!(request.auto_delete, Some(true));
        }
        _ => panic!("a small file goes single-part"),
    }
    let response = SinglePartUploadResponse {
        build_id: "b1".to_string(),
        upload_url: "https://store.test/one".to_string(),
        object_key: "k1".to_string(),
    };
    match engine.on_single_initiated(response) {
        UploadAction::TransferWhole { url } => assert_eq!(url, "https://store.test/one"),
        _ => panic!("expected the whole-file transfer"),
    }
    assert_eq!(engine.bytes_transferred(), 0);
    match engine.on_whole_transferred() {
        UploadAction::CompleteUpload { request } => assert_eq!(request.build_id, "b1"),
        _ => panic!("expected the completion request"),
    }
    assert_eq!(engine.bytes_transferred(), 42);
    match engine.on_complete_acknowledged() {
        UploadAction::Conclude { outcome } => assert_eq!(outcome.unwrap(), "b1"),
        _ => panic!("expected the flow to conclude"),
    }
}

#[test]
fn test_single_part_failure_concludes_without_abort() {
    let mut engine = UploadEngine::new(options(4, false), "a.apk".to_string(), 42);
    engine.start();
    engine.on_single_initiated(SinglePartUploadResponse {
        build_id: "b1".to_string(),
        upload_url: "u".to_string(),
        object_key: "k1".to_string(),
    });
    match engine.on_remote_failed(Error::UploadError("HTTP error: x".to_string())) {
        UploadAction::Conclude { outcome } => assert!(outcome.is_err()),
        _ => panic!("a single-part failure concludes directly"),
    }
}

#[test]
fn test_cancellation_aborts_known_session() {
    let mut engine = UploadEngine::new(options(4, false), "a.apk".to_string(), 42);
    engine.start();
    engine.on_single_initiated(SinglePartUploadResponse {
        build_id: "b1".to_string(),
        upload_url: "u".to_string(),
        object_key: "k1".to_string(),
    });
    match engine.on_cancelled() {
        UploadAction::AbortUpload { build_id, upload_id, object_key } => {
            assert_eq!(build_id, "b1");
            assert_eq!(upload_id, None);
            assert_eq!(object_key.as_deref(), Some("k1"));
        }
        _ => panic!("cancellation after initiate must abort"),
    }
    match engine.on_abort_acknowledged(false) {
        UploadAction::Conclude { outcome } => match outcome {
            Err(e) => assert_eq!(e.to_message(), "Upload failed: Upload cancelled"),
            _ => panic!("cancellation must surface an error"),
        },
        _ => panic!("after the abort the flow must conclude"),
    }
}

#[test]
fn test_inconsistent_plan_is_rejected() {
    let mut engine = UploadEngine::new(options(4, true), "a.apk".to_string(), 10);
    engine.start();
    let response = MultipartUploadResponse {
        build_id: "bid".to_string(),
        upload_id: "uid".to_string(),
        object_key: "key".to_string(),
        total_parts: 2, // ceil(10 / 3) is 4, not 2
        part_size: 3,
    };
    match engine.on_multi_initiated(response) {
        UploadAction::AbortUpload { build_id, .. } => assert_eq!(build_id, "bid"),
        _ => panic!("an inconsistent plan must abort"),
    }
}

#[test]
fn test_mismatched_urls_are_rejected() {
    let mut engine = UploadEngine::new(options(2, true), "a.apk".to_string(), 10);
    engine.start();
    engine.on_multi_initiated(multi_response(10, 3));
    // the first batch is parts 1 and 2; the server answers 1 and 7
    match engine.on_part_urls(urls_for(&[1, 7])) {
        UploadAction::AbortUpload { .. } => {}
        _ => panic!("URLs for other parts must abort"),
    }
}

#[test]
fn test_duplicate_transferred_parts_are_rejected() {
    let mut engine = UploadEngine::new(options(2, true), "a.apk".to_string(), 10);
    engine.start();
    let action = engine.on_multi_initiated(multi_response(10, 3));
    let params = match action {
        UploadAction::RequestPartUrls { params } => params,
        _ => panic!("expected a part-URL request"),
    };
    engine.on_part_urls(urls_for(&params.part_numbers));
    let dup = vec![
        UploadedPart { part_number: 1, etag: "e1".to_string() },
        UploadedPart { part_number: 1, etag: "e1b".to_string() },
    ];
    match engine.on_parts_transferred(dup) {
        UploadAction::AbortUpload { .. } => {}
        _ => panic!("duplicate parts must abort"),
    }
}
