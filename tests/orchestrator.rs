use sf_indexer::orchestrator::{Command, Orchestrator, Phase, PipelineError};
use sf_indexer::processor::BlockProcessor;
use sf_indexer::reader::{BlockData, ProviderMessage};

fn block(height: u64) -> ProviderMessage {
    ProviderMessage::NewBlock(BlockData {
        height,
        payload: vec![height as u8, 7],
        cursor: format!("cursor-{}", height),
    })
}

fn module() -> String {
    "block_to_block_output".to_string()
}

/// Feeds one block and commits it successfully.
fn process(o: &mut Orchestrator, height: u64) {
    match o.on_message(block(height)) {
        Ok(Command::Commit(plan)) => assert_eq!(plan.height, height),
        other => panic!("expected a commit, got {:?}", other),
    }
    assert_eq!(o.on_commit(true), Ok(()));
}

#[test]
fn fresh_pipeline_starts_at_zero_and_marks_last_height() {
    let mut o = Orchestrator::new(&module(), None).unwrap();
    assert_eq!(o.start_height(), 0);
    assert_eq!(o.phase(), Phase::Ready);
    let w = o.begin();
    assert_eq!((w.start, w.end), (0, 500));
    let mut seen = Vec::new();
    for h in 0..3u64 {
        match o.on_message(block(h)) {
            Ok(Command::Commit(plan)) => seen.push(plan.height),
            other => panic!("expected a commit, got {:?}", other),
        }
        assert_eq!(o.on_commit(true), Ok(()));
    }
    assert_eq!(seen, vec![0, 1, 2]);
    assert_eq!(o.marker(), Some(2));
    assert!(matches!(o.on_message(ProviderMessage::EndOfStream), Ok(Command::Finish)));
    assert_eq!(o.phase(), Phase::Finished);
}

#[test]
fn unknown_module_is_refused() {
    assert!(matches!(Orchestrator::new(&"other_module".to_string(), None), Err(PipelineError::UnknownModule)));
    assert!(matches!(Orchestrator::new(&String::new(), Some(3)), Err(PipelineError::UnknownModule)));
}

#[test]
fn marker_near_the_top_overflows() {
    assert!(matches!(Orchestrator::new(&module(), Some(u64::MAX)), Err(PipelineError::HeightOverflow)));
    assert!(matches!(Orchestrator::new(&module(), Some(u64::MAX - 500)), Err(PipelineError::HeightOverflow)));
    let o = Orchestrator::new(&module(), Some(u64::MAX - 501)).unwrap();
    assert_eq!(o.start_height(), u64::MAX - 500);
}

#[test]
fn resumes_after_crash_at_next_height() {
    let mut o = Orchestrator::new(&module(), Some(41)).unwrap();
    assert_eq!(o.start_height(), 42);
    let w = o.begin();
    assert_eq!((w.start, w.end), (42, 542));
    process(&mut o, 42);
    process(&mut o, 43);
    // The process stops here, right after the commit of 43.
    let stored = o.marker();
    assert_eq!(stored, Some(43));
    let fresh = Orchestrator::new(&module(), stored).unwrap();
    assert_eq!(fresh.start_height(), 44);
    assert_eq!(fresh.next_height(), 44);
}

#[test]
fn failed_commit_keeps_marker() {
    let mut o = Orchestrator::new(&module(), Some(9)).unwrap();
    o.begin();
    process(&mut o, 10);
    assert!(matches!(o.on_message(block(11)), Ok(Command::Commit(_))));
    assert_eq!(o.on_commit(false), Err(PipelineError::Processing { height: 11 }));
    assert_eq!(o.marker(), Some(10));
    assert_eq!(o.phase(), Phase::Failed);
    let fresh = Orchestrator::new(&module(), o.marker()).unwrap();
    assert_eq!(fresh.start_height(), 11);
}

#[test]
fn failed_first_commit_keeps_missing_marker() {
    let mut o = Orchestrator::new(&module(), None).unwrap();
    o.begin();
    assert!(matches!(o.on_message(block(0)), Ok(Command::Commit(_))));
    assert_eq!(o.on_commit(false), Err(PipelineError::Processing { height: 0 }));
    assert_eq!(o.marker(), None);
}

#[test]
fn out_of_order_block_is_fatal() {
    let mut o = Orchestrator::new(&module(), None).unwrap();
    o.begin();
    process(&mut o, 0);
    assert_eq!(
        o.on_message(block(2)).unwrap_err(),
        PipelineError::OrderingViolation { expected: 1, received: 2 }
    );
    assert_eq!(o.phase(), Phase::Failed);
    assert_eq!(o.marker(), Some(0));
}

#[test]
fn repeated_block_is_fatal() {
    let mut o = Orchestrator::new(&module(), None).unwrap();
    o.begin();
    process(&mut o, 0);
    assert_eq!(
        o.on_message(block(0)).unwrap_err(),
        PipelineError::OrderingViolation { expected: 1, received: 0 }
    );
}

#[test]
fn end_of_window_continues_end_of_stream_stops() {
    let mut o = Orchestrator::new(&module(), None).unwrap();
    o.begin();
    process(&mut o, 0);
    match o.on_message(ProviderMessage::EndOfWindow) {
        Ok(Command::OpenStream(w)) => assert_eq!((w.start, w.end), (500, 1000)),
        other => panic!("expected a new window, got {:?}", other),
    }
    assert_eq!(o.phase(), Phase::Streaming);
    assert_eq!(o.refills(), 1);
    // A second end of window in a row still does not end the run.
    assert!(matches!(o.on_message(ProviderMessage::EndOfWindow), Ok(Command::OpenStream(_))));
    assert_eq!(o.phase(), Phase::Streaming);
    process(&mut o, 1);
    assert!(matches!(o.on_message(ProviderMessage::EndOfStream), Ok(Command::Finish)));
    assert_eq!(o.phase(), Phase::Finished);
    assert_eq!(o.marker(), Some(1));
}

#[test]
fn window_transparency_over_twelve_hundred_blocks() {
    let mut o = Orchestrator::new(&module(), None).unwrap();
    o.begin();
    let mut heights = Vec::new();
    let mut opened = Vec::new();
    let mut next: u64 = 0;
    for window in 0..3u64 {
        let end = std::cmp::min((window + 1) * 500, 1200);
        while next < end {
            match o.on_message(block(next)) {
                Ok(Command::Commit(plan)) => heights.push(plan.height),
                other => panic!("expected a commit, got {:?}", other),
            }
            assert_eq!(o.on_commit(true), Ok(()));
            next += 1;
        }
        if window < 2 {
            match o.on_message(ProviderMessage::EndOfWindow) {
                Ok(Command::OpenStream(w)) => opened.push((w.start, w.end)),
                other => panic!("expected a new window, got {:?}", other),
            }
        }
    }
    assert!(matches!(o.on_message(ProviderMessage::EndOfStream), Ok(Command::Finish)));
    assert_eq!(o.refills(), 2);
    assert_eq!(opened, vec![(500, 1000), (1000, 1500)]);
    assert_eq!(heights, (0..1200u64).collect::<Vec<u64>>());
    assert_eq!(o.marker(), Some(1199));
}

#[test]
fn commit_plan_holds_the_block() {
    let mut o = Orchestrator::new(&module(), Some(4)).unwrap();
    assert_eq!(o.processor(), BlockProcessor::BlockOutput);
    o.begin();
    match o.on_message(block(5)) {
        Ok(Command::Commit(plan)) => {
            assert_eq!(plan.height, 5);
            assert_eq!(plan.rows.len(), 1);
            assert_eq!(plan.rows[0].height, 5);
            assert_eq!(plan.rows[0].payload, vec![5u8, 7]);
            assert_eq!(plan.rows[0].cursor, "cursor-5");
        }
        other => panic!("expected a commit, got {:?}", other),
    }
    assert_eq!(o.phase(), Phase::Committing);
    assert_eq!(o.marker(), Some(4));
}

#[test]
fn shutdown_only_between_blocks() {
    let mut o = Orchestrator::new(&module(), None).unwrap();
    o.begin();
    assert!(matches!(o.on_message(block(0)), Ok(Command::Commit(_))));
    assert!(!o.request_shutdown());
    assert_eq!(o.phase(), Phase::Committing);
    assert_eq!(o.on_commit(true), Ok(()));
    assert!(o.request_shutdown());
    assert_eq!(o.phase(), Phase::Stopped);
    assert_eq!(o.marker(), Some(0));
    assert!(!o.request_shutdown());
}
