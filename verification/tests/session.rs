use hash_session::hashing::oneshot_digest;
use hash_session::session::Action;
use hash_session::session::HashSession;
use hash_session::session::ProcessStatus;
use hash_session::session::ReadEvent;
use hash_session::session::status_code;
use hash_session::session::DEFAULT_CHUNK_SIZE;

const XXH64_EMPTY_SEED0: u64 = 0xef46db3751d8e999;

fn run_to_end(
    session: &mut HashSession,
    data: &[u8],
) -> (ProcessStatus, Vec<(u64, u64)>) {
    let mut pos: usize = 0;
    let mut reports: Vec<(u64, u64)> = Vec::new();
    let st = session.process_slice(data, &mut pos, &mut reports);
    (st, reports)
}

#[test]
fn empty_source_completes_with_known_digest() {
    let mut session = HashSession::new(0, 4096);
    let (st, reports) = run_to_end(&mut session, &[]);
    assert_eq!(st, ProcessStatus::Completed);
    assert_eq!(session.processed(), 0);
    assert!(reports.is_empty());
    let digest = session.finalize();
    assert_eq!(digest, XXH64_EMPTY_SEED0);
    assert_eq!(digest, xxhash_rust::xxh64::xxh64(&[], 0));
    assert_eq!(digest, oneshot_digest(0, &[]));
}

#[test]
fn streaming_matches_oneshot() {
    let data: Vec<u8> = (0..10_000u32).map(|i| (i % 251) as u8).collect();
    for (len, chunk) in [
        (0usize, 1u32),
        (1, 1),
        (1, 4096),
        (4095, 4096),
        (4096, 4096),
        (4097, 4096),
        (10_000, 4096),
        (10_000, 7),
    ] {
        let slice = &data[..len];
        let mut session = HashSession::new(len as u64, chunk);
        let (st, _) = run_to_end(&mut session, slice);
        assert_eq!(st, ProcessStatus::Completed);
        assert_eq!(session.processed(), len as u64);
        let streamed = session.finalize();
        assert_eq!(streamed, oneshot_digest(0, slice));
        assert_eq!(streamed, xxhash_rust::xxh64::xxh64(slice, 0));
    }
}

#[test]
fn last_report_equals_total_length() {
    let data = vec![7u8; 10_000];
    let mut session = HashSession::new(data.len() as u64, 4096);
    let (st, reports) = run_to_end(&mut session, &data);
    assert_eq!(st, ProcessStatus::Completed);
    let last = reports.last().expect("a non-empty source makes reports");
    assert_eq!(last.0, data.len() as u64);
    assert_eq!(last.1, data.len() as u64);
}

#[test]
fn reports_are_chunk_aligned_except_last() {
    let data = vec![42u8; 10_000];
    let mut session = HashSession::new(data.len() as u64, 4096);
    let (st, reports) = run_to_end(&mut session, &data);
    assert_eq!(st, ProcessStatus::Completed);
    assert_eq!(reports.len(), 3);
    for report in &reports[..reports.len() - 1] {
        assert_eq!(report.0 % 4096, 0);
    }
    assert_eq!(reports[0].0, 4096);
    assert_eq!(reports[1].0, 8192);
    assert_eq!(reports[2].0, 10_000);
}

#[test]
fn cancel_before_first_chunk() {
    let data = vec![1u8; 1024];
    let mut session = HashSession::new(data.len() as u64, 64);
    session.cancel();
    assert!(session.is_cancelled());
    assert_eq!(session.next_action(), Action::Stop(ProcessStatus::Cancelled));
    let (st, reports) = run_to_end(&mut session, &data);
    assert_eq!(st, ProcessStatus::Cancelled);
    assert_eq!(session.processed(), 0);
    assert!(reports.is_empty());
}

#[test]
fn cancel_partway_leaves_prefix_digest() {
    let data: Vec<u8> = (0..10 * 1024 * 1024u32).map(|i| (i % 253) as u8).collect();
    let chunk: usize = 4096;
    let mut session = HashSession::new(data.len() as u64, chunk as u32);
    let mut pos: usize = 0;
    let mut chunks_fed: usize = 0;
    loop {
        if chunks_fed == 5 {
            session.cancel();
        }
        match session.next_action() {
            Action::Stop(st) => {
                assert_eq!(st, ProcessStatus::Cancelled);
                break;
            }
            Action::Read(n) => {
                assert_eq!(n, chunk);
                let end = usize::min(pos + n, data.len());
                let r = session.consume(ReadEvent::Data(data[pos..end].to_vec()));
                assert_eq!(r, None);
                pos = end;
                chunks_fed += 1;
            }
        }
    }
    let processed = session.processed();
    assert!(0 < processed && processed < data.len() as u64);
    assert_eq!(processed % chunk as u64, 0);
    assert_eq!(processed, 5 * chunk as u64);
    let digest = session.finalize();
    assert_eq!(digest, xxhash_rust::xxh64::xxh64(&data[..processed as usize], 0));
}

#[test]
fn default_chunk_size_substituted_for_zero() {
    let session = HashSession::new(123, 0);
    assert_eq!(session.chunk_size(), DEFAULT_CHUNK_SIZE);
    assert_eq!(session.chunk_size(), 65536);
    session.cleanup();
}

#[test]
fn explicit_chunk_size_kept() {
    let session = HashSession::new(123, 4096);
    assert_eq!(session.chunk_size(), 4096);
    session.cleanup();
}

#[test]
fn read_error_preserves_accumulated_state() {
    let data = vec![9u8; 100];
    let mut session = HashSession::new(data.len() as u64, 100);
    let r = session.consume(ReadEvent::Data(data.clone()));
    assert_eq!(r, None);
    let r = session.consume(ReadEvent::Failure);
    assert_eq!(r, Some(ProcessStatus::ReadError));
    assert_eq!(session.processed(), 100);
    let digest = session.finalize();
    assert_eq!(digest, xxhash_rust::xxh64::xxh64(&data, 0));
}

#[test]
fn end_of_source_reports_completed() {
    let mut session = HashSession::new(0, 8);
    let r = session.consume(ReadEvent::EndOfSource);
    assert_eq!(r, Some(ProcessStatus::Completed));
    assert_eq!(session.processed(), 0);
    session.cleanup();
}

#[test]
fn status_codes_match_boundary() {
    assert_eq!(status_code(ProcessStatus::Completed), 0);
    assert_eq!(status_code(ProcessStatus::Invalid), -1);
    assert_eq!(status_code(ProcessStatus::Cancelled), -4);
    assert_eq!(status_code(ProcessStatus::ReadError), -5);
}

#[test]
fn finalize_first_call_succeeds() {
    let data = b"finalize exactly once".to_vec();
    let mut session = HashSession::new(data.len() as u64, 8);
    let (st, _) = run_to_end(&mut session, &data);
    assert_eq!(st, ProcessStatus::Completed);
    let digest = session.finalize();
    assert_eq!(digest, xxhash_rust::xxh64::xxh64(&data, 0));
    // A second `finalize`, or a `cleanup` after it, does not compile:
    // `finalize` consumes the session, so the misuse is rejected at the
    // ownership level rather than tolerated at run time.
}

#[test]
fn process_resumes_from_current_position() {
    let data: Vec<u8> = (0..1000u32).map(|i| (i % 17) as u8).collect();
    let mut session = HashSession::new(data.len() as u64, 64);
    let mut pos: usize = 0;
    let mut reports: Vec<(u64, u64)> = Vec::new();
    // First pump: feed three chunks by hand.
    for _ in 0..3 {
        let end = usize::min(pos + 64, data.len());
        assert_eq!(session.consume(ReadEvent::Data(data[pos..end].to_vec())), None);
        pos = end;
    }
    assert_eq!(session.processed(), 192);
    // Second pump: a fresh `Process` call resumes at the stream position.
    let st = session.process_slice(&data, &mut pos, &mut reports);
    assert_eq!(st, ProcessStatus::Completed);
    assert_eq!(session.processed(), data.len() as u64);
    let digest = session.finalize();
    assert_eq!(digest, xxhash_rust::xxh64::xxh64(&data, 0));
}
