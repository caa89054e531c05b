use zat::{PublishAction, PublishBridge, PublishFailure, PublishPhase, ReadOutcome};

/// Feeds `input` in reads of at most the chunk size, confirming every
/// publish, and returns the published payloads.
fn run(input: &[u8], chunk: usize) -> Vec<Vec<u8>> {
    let mut bridge = PublishBridge::new(chunk);
    let mut published = Vec::new();
    let mut pos = 0;
    loop {
        let end = std::cmp::min(pos + bridge.chunk_size(), input.len());
        let data = input[pos..end].to_vec();
        pos = end;
        match bridge.on_read(ReadOutcome::Data(data)) {
            PublishAction::Publish(bytes) => {
                published.push(bytes);
                assert!(matches!(bridge.on_publish_result(Ok(())), PublishAction::ReadNext));
            }
            PublishAction::Finish => break,
            other => panic!("unexpected action {:?}", other),
        }
    }
    assert_eq!(bridge.phase(), PublishPhase::Finished);
    published
}

#[test]
fn chunk_four_abcdefg_gives_two_messages() {
    let out = run(b"ABCDEFG", 4);
    assert_eq!(out, vec![b"ABCD".to_vec(), b"EFG".to_vec()]);
}

#[test]
fn message_count_is_ceiling_and_payloads_rebuild_input() {
    let input: Vec<u8> = (0..100u8).collect();
    for chunk in 1..=101usize {
        let out = run(&input, chunk);
        assert_eq!(out.len(), (input.len() + chunk - 1) / chunk);
        assert_eq!(out.concat(), input);
        assert!(out.iter().all(|m| !m.is_empty() && m.len() <= chunk));
    }
}

#[test]
fn exact_multiple_of_chunk() {
    let out = run(b"ABCDEFGH", 4);
    assert_eq!(out, vec![b"ABCD".to_vec(), b"EFGH".to_vec()]);
}

#[test]
fn empty_input_publishes_nothing() {
    assert!(run(b"", 4).is_empty());
}

#[test]
fn end_of_input_finishes() {
    let mut bridge = PublishBridge::new(8);
    assert!(matches!(bridge.on_read(ReadOutcome::EndOfInput), PublishAction::Finish));
    assert_eq!(bridge.phase(), PublishPhase::Finished);
}

#[test]
fn partial_read_is_published_as_read() {
    let mut bridge = PublishBridge::new(8);
    match bridge.on_read(ReadOutcome::Data(b"ab".to_vec())) {
        PublishAction::Publish(b) => assert_eq!(b, b"ab".to_vec()),
        other => panic!("unexpected action {:?}", other),
    }
    assert_eq!(bridge.phase(), PublishPhase::Publishing);
}

#[test]
fn read_error_aborts() {
    let mut bridge = PublishBridge::new(8);
    match bridge.on_read(ReadOutcome::Failed("broken pipe".to_string())) {
        PublishAction::Abort(f) => assert_eq!(f, PublishFailure::Read("broken pipe".to_string())),
        other => panic!("unexpected action {:?}", other),
    }
    assert_eq!(bridge.phase(), PublishPhase::Failed);
}

#[test]
fn publish_error_aborts_without_retry() {
    let mut bridge = PublishBridge::new(8);
    assert!(matches!(
        bridge.on_read(ReadOutcome::Data(b"abc".to_vec())),
        PublishAction::Publish(_)
    ));
    match bridge.on_publish_result(Err("closed".to_string())) {
        PublishAction::Abort(f) => assert_eq!(f, PublishFailure::Publish("closed".to_string())),
        other => panic!("unexpected action {:?}", other),
    }
    assert_eq!(bridge.phase(), PublishPhase::Failed);
}

#[test]
fn replay_of_chunked_reads_publishes_each_chunk() {
    let reads = vec![b"ABCD".to_vec(), b"EFG".to_vec(), vec![], b"late".to_vec()];
    assert_eq!(zat::replay_reads(4, reads), vec![b"ABCD".to_vec(), b"EFG".to_vec()]);
}

#[test]
fn replay_without_final_empty_read_publishes_all() {
    let reads = vec![b"a".to_vec(), b"bc".to_vec()];
    assert_eq!(zat::replay_reads(2, reads), vec![b"a".to_vec(), b"bc".to_vec()]);
}
