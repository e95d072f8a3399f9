use moose_core::download::{
    begin, determine_total, on_status, should_emit, DownloadError, Progress, RangeOutcome,
    StartPlan, Transfer, PARTIAL_CONTENT,
};

#[test]
fn total_from_metadata_request() {
    assert_eq!(determine_total(Some(5_000_000_000), None).unwrap(), 5_000_000_000);
    assert_eq!(determine_total(Some(7), Some(9)).unwrap(), 7);
}

#[test]
fn total_from_fallback_fetch() {
    assert_eq!(determine_total(None, Some(123)).unwrap(), 123);
    assert_eq!(determine_total(Some(0), Some(123)).unwrap(), 123);
}

#[test]
fn total_unknown_when_neither_declares() {
    assert!(matches!(determine_total(None, None), Err(DownloadError::SizeUnknown)));
    assert!(matches!(determine_total(Some(0), Some(0)), Err(DownloadError::SizeUnknown)));
}

#[test]
fn fresh_download_starts_at_zero_without_range() {
    match begin(5_000_000_000, None) {
        StartPlan::Fetch { transfer, event, range_start } => {
            assert_eq!(transfer, Transfer { downloaded: 0, total: 5_000_000_000 });
            assert_eq!(event, Progress { downloaded: 0, total: 5_000_000_000 });
            assert_eq!(range_start, None);
        }
        StartPlan::AlreadyComplete { .. } => panic!("fresh download must fetch"),
    }
}

#[test]
fn resume_requests_exactly_the_partial_offset() {
    match begin(5_000_000_000, Some(2_000_000_000)) {
        StartPlan::Fetch { transfer, event, range_start } => {
            assert_eq!(transfer.downloaded, 2_000_000_000);
            assert_eq!(event, Progress { downloaded: 2_000_000_000, total: 5_000_000_000 });
            assert_eq!(range_start, Some(2_000_000_000));
        }
        StartPlan::AlreadyComplete { .. } => panic!("partial download must fetch"),
    }
}

#[test]
fn complete_file_reports_once_and_transfers_nothing() {
    match begin(5_000_000_000, Some(5_000_000_000)) {
        StartPlan::AlreadyComplete { event } => {
            assert_eq!(event, Progress { downloaded: 5_000_000_000, total: 5_000_000_000 });
        }
        StartPlan::Fetch { .. } => panic!("a complete file must not refetch"),
    }
    // an oversized partial file counts as complete too
    assert!(matches!(
        begin(100, Some(101)),
        StartPlan::AlreadyComplete { event: Progress { downloaded: 100, total: 100 } }
    ));
}

#[test]
fn honored_range_proceeds_untouched() {
    let t = Transfer { downloaded: 2_000_000_000, total: 5_000_000_000 };
    match on_status(t, PARTIAL_CONTENT) {
        RangeOutcome::Accepted { transfer } => assert_eq!(transfer, t),
        _ => panic!("partial content must be accepted"),
    }
}

#[test]
fn ignored_range_restarts_from_zero() {
    let t = Transfer { downloaded: 2_000_000_000, total: 5_000_000_000 };
    match on_status(t, 200) {
        RangeOutcome::Restarted { transfer, event } => {
            assert_eq!(transfer, Transfer { downloaded: 0, total: 5_000_000_000 });
            assert_eq!(event, Progress { downloaded: 0, total: 5_000_000_000 });
        }
        _ => panic!("a 200 answer to a ranged request must restart"),
    }
}

#[test]
fn full_content_on_first_run_is_accepted() {
    let t = Transfer { downloaded: 0, total: 5_000_000_000 };
    assert!(matches!(on_status(t, 200), RangeOutcome::Accepted { .. }));
}

#[test]
fn error_status_fails_and_keeps_the_partial_file() {
    let t = Transfer { downloaded: 2_000_000_000, total: 5_000_000_000 };
    assert!(matches!(
        on_status(t, 404),
        RangeOutcome::Failed { error: DownloadError::Server(404) }
    ));
    assert!(matches!(
        on_status(t, 500),
        RangeOutcome::Failed { error: DownloadError::Server(500) }
    ));
}

#[test]
fn fresh_run_progress_climbs_to_the_exact_total() {
    // model file absent, total 5,000,000,000: progress must rise
    // monotonically from 0 and end exactly at the total
    let total: u64 = 5_000_000_000;
    let mut t = match begin(total, None) {
        StartPlan::Fetch { transfer, event, .. } => {
            assert_eq!(event.downloaded, 0);
            transfer
        }
        _ => panic!("must fetch"),
    };
    let mut last: u64 = 0;
    let chunk: u64 = 750_000_000;
    while t.downloaded < t.total {
        t.apply_chunk(chunk);
        let p = t.progress();
        assert!(p.downloaded >= last);
        assert!(p.downloaded <= p.total);
        last = p.downloaded;
    }
    assert_eq!(t.completion_event(), Progress { downloaded: total, total });
}

#[test]
fn resumed_run_first_event_is_the_partial_pair() {
    // model file present with 2,000,000,000 of 5,000,000,000 bytes and the
    // server honoring the range: the first emitted progress is the pair
    // (2000000000, 5000000000) and the transfer continues from there
    let total: u64 = 5_000_000_000;
    let (mut t, first) = match begin(total, Some(2_000_000_000)) {
        StartPlan::Fetch { transfer, event, range_start } => {
            assert_eq!(range_start, Some(2_000_000_000));
            (transfer, event)
        }
        _ => panic!("must fetch"),
    };
    assert_eq!(first, Progress { downloaded: 2_000_000_000, total });
    t = match on_status(t, PARTIAL_CONTENT) {
        RangeOutcome::Accepted { transfer } => transfer,
        _ => panic!("range honored"),
    };
    assert_eq!(t.downloaded, 2_000_000_000);
    t.apply_chunk(3_000_000_000);
    assert_eq!(t.progress(), Progress { downloaded: total, total });
}

#[test]
fn chunk_counter_never_passes_the_total() {
    let mut t = Transfer { downloaded: 90, total: 100 };
    t.apply_chunk(25);
    assert_eq!(t.progress(), Progress { downloaded: 100, total: 100 });
}

#[test]
fn progress_events_are_rate_limited() {
    assert!(!should_emit(0));
    assert!(!should_emit(200));
    assert!(should_emit(201));
    assert!(should_emit(10_000));
}
