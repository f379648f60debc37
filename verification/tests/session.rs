use ws_live_server::channel::TryRecvError;
use ws_live_server::reader::{ReaderAction, ReaderEvent};
use ws_live_server::response::TransCoderResponse;
use ws_live_server::session::{SessionState, TransCoder};

/// Plays the reader's thread against a process that writes `chunks`, closes
/// its output and has exited by the time it is probed.
fn play_process(session: &mut TransCoder, chunks: &[&[u8]]) {
    assert_eq!(session.reader_action(), ReaderAction::Spawn);
    let mut action = session.reader_step(ReaderEvent::Spawned);
    for chunk in chunks {
        assert_eq!(action, ReaderAction::Read);
        action = session.reader_step(ReaderEvent::Read(chunk.to_vec()));
    }
    assert_eq!(action, ReaderAction::Read);
    action = session.reader_step(ReaderEvent::Read(Vec::new()));
    assert_eq!(action, ReaderAction::Probe);
    action = session.reader_step(ReaderEvent::Liveness(false));
    assert_eq!(action, ReaderAction::Exit);
}

/// Polls until nothing is pending and returns what came, in order. The
/// poll that found nothing must have answered `end`.
fn drain(session: &mut TransCoder, end: TryRecvError) -> Vec<TransCoderResponse> {
    let mut seen = Vec::new();
    loop {
        match session.try_recv() {
            Ok(response) => seen.push(response),
            Err(reason) => {
                assert_eq!(reason, end);
                return seen;
            }
        }
    }
}

fn payloads(responses: &[TransCoderResponse]) -> Vec<u8> {
    let mut bytes = Vec::new();
    for response in responses {
        if let TransCoderResponse::Data(chunk) = response {
            bytes.extend_from_slice(chunk);
        }
    }
    bytes
}

#[test]
fn new_session_is_idle() {
    let mut session = TransCoder::new("rtsp://camera/1");
    assert_eq!(session.state(), SessionState::Idle);
    assert!(!session.is_running());
    assert_eq!(session.source(), "rtsp://camera/1");
    assert_eq!(session.reader_action(), ReaderAction::Exit);
    assert_eq!(session.try_recv(), Err(TryRecvError::Empty));
}

#[test]
fn start_raises_flag_and_launches_reader() {
    let mut session = TransCoder::new("a");
    assert!(session.start());
    assert_eq!(session.state(), SessionState::Running);
    assert!(session.is_running());
    assert_eq!(session.reader_action(), ReaderAction::Spawn);
}

#[test]
fn start_works_once() {
    let mut session = TransCoder::new("a");
    assert!(session.start());
    assert_eq!(session.reader_step(ReaderEvent::Spawned), ReaderAction::Read);
    assert!(!session.start());
    assert_eq!(session.state(), SessionState::Running);
    assert_eq!(session.reader_action(), ReaderAction::Read);
}

#[test]
fn start_after_stop_does_nothing() {
    let mut session = TransCoder::new("a");
    assert!(session.start());
    assert!(session.stop());
    assert!(!session.start());
    assert_eq!(session.state(), SessionState::Stopped);
    assert!(!session.is_running());
}

#[test]
fn stop_before_start_has_no_reader_to_join() {
    let mut session = TransCoder::new("a");
    assert!(!session.stop());
    assert_eq!(session.state(), SessionState::Stopped);
    assert!(!session.start());
    assert_eq!(session.reader_action(), ReaderAction::Exit);
}

#[test]
fn stop_twice_joins_once() {
    let mut session = TransCoder::new("a");
    assert!(session.start());
    assert!(session.stop());
    assert!(!session.stop());
    assert_eq!(session.state(), SessionState::Stopped);
}

#[test]
fn chunks_then_end_of_stream_then_empty() {
    let mut session = TransCoder::new("test-source");
    assert!(session.start());
    play_process(&mut session, &[b"AAAA", b"BBBB"]);
    assert_eq!(session.try_recv(), Ok(TransCoderResponse::Data(b"AAAA".to_vec())));
    assert_eq!(session.try_recv(), Ok(TransCoderResponse::Data(b"BBBB".to_vec())));
    assert_eq!(session.try_recv(), Ok(TransCoderResponse::EOS));
    for _ in 0..5 {
        assert_eq!(session.try_recv(), Err(TryRecvError::Empty));
    }
}

#[test]
fn polled_payloads_are_the_bytes_written() {
    let runs: Vec<Vec<&[u8]>> = vec![
        vec![],
        vec![b"x"],
        vec![b"ab", b"", b"cd"],
        vec![b"one", b"two", b"three", b"four"],
        vec![&[0u8, 255, 1, 254], &[7u8; 1000]],
    ];
    for chunks in runs {
        let mut written = Vec::new();
        let mut session = TransCoder::new("s");
        assert!(session.start());
        assert_eq!(session.reader_step(ReaderEvent::Spawned), ReaderAction::Read);
        let mut polled = Vec::new();
        for chunk in &chunks {
            if session.reader_action() != ReaderAction::Read {
                break;
            }
            if !chunk.is_empty() {
                written.extend_from_slice(chunk);
            }
            session.reader_step(ReaderEvent::Read(chunk.to_vec()));
            if polled.len() % 2 == 0 {
                if let Ok(response) = session.try_recv() {
                    polled.push(response);
                }
            }
        }
        if session.reader_action() == ReaderAction::Read {
            session.reader_step(ReaderEvent::Read(Vec::new()));
        }
        polled.extend(drain(&mut session, TryRecvError::Empty));
        assert_eq!(payloads(&polled), written);
        assert_eq!(polled.last(), Some(&TransCoderResponse::EOS));
        let terminals = polled.iter().filter(|response| response.is_terminal()).count();
        assert_eq!(terminals, 1);
    }
}

#[test]
fn empty_read_in_the_middle_ends_the_stream() {
    let mut session = TransCoder::new("s");
    assert!(session.start());
    session.reader_step(ReaderEvent::Spawned);
    session.reader_step(ReaderEvent::Read(b"ab".to_vec()));
    assert_eq!(session.reader_step(ReaderEvent::Read(Vec::new())), ReaderAction::Probe);
    assert_eq!(session.reader_step(ReaderEvent::Read(b"cd".to_vec())), ReaderAction::Probe);
    assert_eq!(
        drain(&mut session, TryRecvError::Empty),
        vec![TransCoderResponse::Data(b"ab".to_vec()), TransCoderResponse::EOS]
    );
}

#[test]
fn nothing_follows_end_of_stream() {
    let mut session = TransCoder::new("s");
    assert!(session.start());
    play_process(&mut session, &[b"data"]);
    for event in [
        ReaderEvent::Spawned,
        ReaderEvent::Read(b"late".to_vec()),
        ReaderEvent::Read(Vec::new()),
        ReaderEvent::SpawnFailed("late".to_string()),
        ReaderEvent::ReadFailed,
        ReaderEvent::Liveness(true),
        ReaderEvent::Killed,
    ] {
        assert_eq!(session.reader_step(event), ReaderAction::Exit);
    }
    assert_eq!(
        drain(&mut session, TryRecvError::Empty),
        vec![TransCoderResponse::Data(b"data".to_vec()), TransCoderResponse::EOS]
    );
    assert!(!session.is_lost());
}

#[test]
fn failed_spawn_gives_one_error_and_nothing_else() {
    let mut session = TransCoder::new("s");
    assert!(session.start());
    assert_eq!(session.reader_action(), ReaderAction::Spawn);
    let failure = ReaderEvent::SpawnFailed("No such file or directory".to_string());
    let action = session.reader_step(failure);
    assert_eq!(action, ReaderAction::Exit);
    assert_eq!(session.reader_step(ReaderEvent::Read(b"x".to_vec())), ReaderAction::Exit);
    assert_eq!(session.reader_step(ReaderEvent::Read(Vec::new())), ReaderAction::Exit);
    assert_eq!(
        session.try_recv(),
        Ok(TransCoderResponse::Error("No such file or directory".to_string()))
    );
    assert_eq!(session.try_recv(), Err(TryRecvError::Empty));
    assert_eq!(session.try_recv(), Err(TryRecvError::Empty));
    assert!(!session.is_lost());
}

#[test]
fn failed_read_ends_without_a_message_and_the_producer_is_lost() {
    let mut session = TransCoder::new("s");
    assert!(session.start());
    session.reader_step(ReaderEvent::Spawned);
    session.reader_step(ReaderEvent::Read(b"abc".to_vec()));
    assert_eq!(session.reader_step(ReaderEvent::ReadFailed), ReaderAction::Probe);
    assert_eq!(session.reader_step(ReaderEvent::Liveness(true)), ReaderAction::Kill);
    assert_eq!(session.reader_step(ReaderEvent::Killed), ReaderAction::Exit);
    assert!(session.is_lost());
    assert_eq!(
        drain(&mut session, TryRecvError::Disconnected),
        vec![TransCoderResponse::Data(b"abc".to_vec())]
    );
    for _ in 0..3 {
        assert_eq!(session.try_recv(), Err(TryRecvError::Disconnected));
    }
}

#[test]
fn poll_answers_empty_until_the_reader_has_finished() {
    let mut session = TransCoder::new("s");
    assert!(session.start());
    assert_eq!(session.try_recv(), Err(TryRecvError::Empty));
    session.reader_step(ReaderEvent::Spawned);
    assert_eq!(session.try_recv(), Err(TryRecvError::Empty));
    assert_eq!(session.reader_step(ReaderEvent::ReadFailed), ReaderAction::Probe);
    assert_eq!(session.try_recv(), Err(TryRecvError::Empty));
    assert_eq!(session.reader_step(ReaderEvent::Liveness(true)), ReaderAction::Kill);
    assert!(!session.is_lost());
    assert_eq!(session.try_recv(), Err(TryRecvError::Empty));
    assert_eq!(session.reader_step(ReaderEvent::Killed), ReaderAction::Exit);
    assert!(session.is_lost());
    assert_eq!(session.try_recv(), Err(TryRecvError::Disconnected));
}

#[test]
fn exited_process_after_a_failed_read_loses_the_producer() {
    let mut session = TransCoder::new("s");
    assert!(session.start());
    session.reader_step(ReaderEvent::Spawned);
    assert_eq!(session.reader_step(ReaderEvent::ReadFailed), ReaderAction::Probe);
    assert_eq!(session.reader_step(ReaderEvent::Liveness(false)), ReaderAction::Exit);
    assert_eq!(session.try_recv(), Err(TryRecvError::Disconnected));
    assert_eq!(session.reader_step(ReaderEvent::Read(b"late".to_vec())), ReaderAction::Exit);
    assert_eq!(session.try_recv(), Err(TryRecvError::Disconnected));
}

#[test]
fn poll_on_empty_channel_answers_empty_while_a_read_is_under_way() {
    let mut session = TransCoder::new("s");
    assert!(session.start());
    assert_eq!(session.reader_step(ReaderEvent::Spawned), ReaderAction::Read);
    for _ in 0..3 {
        assert_eq!(session.try_recv(), Err(TryRecvError::Empty));
    }
    assert_eq!(session.reader_action(), ReaderAction::Read);
    assert!(session.is_running());
}

#[test]
fn stop_while_producing_kills_the_process_within_one_read() {
    let mut session = TransCoder::new("s");
    assert!(session.start());
    assert_eq!(session.reader_step(ReaderEvent::Spawned), ReaderAction::Read);
    assert_eq!(session.reader_step(ReaderEvent::Read(b"one".to_vec())), ReaderAction::Read);
    assert!(session.stop());
    assert!(!session.is_running());
    // The read under way when the flag went down still delivers its bytes.
    assert_eq!(session.reader_step(ReaderEvent::Read(b"two".to_vec())), ReaderAction::Probe);
    assert_eq!(session.reader_step(ReaderEvent::Liveness(true)), ReaderAction::Kill);
    assert_eq!(session.reader_step(ReaderEvent::Killed), ReaderAction::Exit);
    assert_eq!(session.reader_action(), ReaderAction::Exit);
    assert_eq!(
        drain(&mut session, TryRecvError::Disconnected),
        vec![
            TransCoderResponse::Data(b"one".to_vec()),
            TransCoderResponse::Data(b"two".to_vec())
        ]
    );
}

#[test]
fn stopped_session_answers_empty_while_its_reader_winds_down() {
    let mut session = TransCoder::new("s");
    assert!(session.start());
    assert_eq!(session.reader_step(ReaderEvent::Spawned), ReaderAction::Read);
    assert!(session.stop());
    assert_eq!(session.try_recv(), Err(TryRecvError::Empty));
    assert_eq!(session.reader_step(ReaderEvent::Read(b"x".to_vec())), ReaderAction::Probe);
    assert_eq!(session.try_recv(), Ok(TransCoderResponse::Data(b"x".to_vec())));
    assert_eq!(session.try_recv(), Err(TryRecvError::Empty));
    assert_eq!(session.reader_step(ReaderEvent::Liveness(false)), ReaderAction::Exit);
    assert_eq!(session.try_recv(), Err(TryRecvError::Disconnected));
}

#[test]
fn stopped_session_keeps_its_producer_after_end_of_stream() {
    let mut session = TransCoder::new("s");
    assert!(session.start());
    play_process(&mut session, &[b"x"]);
    assert!(session.stop());
    assert_eq!(
        drain(&mut session, TryRecvError::Empty),
        vec![TransCoderResponse::Data(b"x".to_vec()), TransCoderResponse::EOS]
    );
    assert!(!session.is_lost());
}

#[test]
fn session_stopped_before_start_is_not_lost() {
    let mut session = TransCoder::new("s");
    assert!(!session.stop());
    assert!(!session.is_lost());
    assert_eq!(session.try_recv(), Err(TryRecvError::Empty));
}

#[test]
fn stop_before_the_spawn_returns_skips_reading() {
    let mut session = TransCoder::new("s");
    assert!(session.start());
    assert!(session.stop());
    assert_eq!(session.reader_step(ReaderEvent::Spawned), ReaderAction::Probe);
    assert_eq!(session.reader_step(ReaderEvent::Liveness(true)), ReaderAction::Kill);
    assert_eq!(session.try_recv(), Err(TryRecvError::Empty));
    assert_eq!(session.reader_step(ReaderEvent::Killed), ReaderAction::Exit);
    assert_eq!(session.try_recv(), Err(TryRecvError::Disconnected));
}

#[test]
fn exited_process_is_not_killed() {
    let mut session = TransCoder::new("s");
    assert!(session.start());
    session.reader_step(ReaderEvent::Spawned);
    assert_eq!(session.reader_step(ReaderEvent::Read(Vec::new())), ReaderAction::Probe);
    assert_eq!(session.reader_step(ReaderEvent::Liveness(false)), ReaderAction::Exit);
}

#[test]
fn events_before_start_are_ignored() {
    let mut session = TransCoder::new("s");
    assert_eq!(session.reader_step(ReaderEvent::Spawned), ReaderAction::Exit);
    assert_eq!(session.reader_step(ReaderEvent::Read(b"x".to_vec())), ReaderAction::Exit);
    assert_eq!(session.try_recv(), Err(TryRecvError::Empty));
    assert_eq!(session.state(), SessionState::Idle);
}

#[test]
fn session_arguments_carry_the_source() {
    let session = TransCoder::new("rtsp://host/stream?x=1&y=2");
    let list = session.arguments();
    assert_eq!(list.len(), 27);
    assert_eq!(list[8], "-i");
    assert_eq!(list[9], "rtsp://host/stream?x=1&y=2");
}

#[test]
fn buffer_size_is_200_kib() {
    assert_eq!(TransCoder::BUFFER_SIZE, 204800);
}
