use crossbeam_channel::{bounded, Receiver, TrySendError};
use packet_sender::packet_builder::build_frame;
use packet_sender::sender::{
    generate, generator_result, make_batch, plan_batches, progress_due, Batch, DrainAction,
    DrainEvent, DrainLoop, GeneratorOutcome, Generation, PacketSenderError, BATCH_SIZE, PROGRESS_INTERVAL, QUEUE_CAPACITY,
};
use packet_sender::settings::{preset, SendPacketSettingsBuilder, TCP_FLAG_SYN};

/// Runs the drain loop against the queue and an in-memory sink that refuses
/// the write with index `fail_at`; the generation task is taken to end with
/// `outcome`.
fn drive(
    target: usize,
    rx: &Receiver<Batch>,
    sink: &mut Vec<Vec<u8>>,
    fail_at: Option<usize>,
    outcome: GeneratorOutcome,
) -> (Result<(), PacketSenderError>, usize) {
    let mut drain = DrainLoop::new(target);
    let mut batch: Batch = Vec::new();
    let mut attempts = 0usize;
    loop {
        match drain.next_action() {
            DrainAction::Receive => match rx.recv() {
                Ok(b) => {
                    let n = b.len();
                    batch = b;
                    drain.handle(DrainEvent::BatchReceived(n));
                }
                Err(_) => drain.handle(DrainEvent::ReceiveFailed),
            },
            DrainAction::Write(i) => {
                let refused = fail_at == Some(attempts);
                attempts += 1;
                if refused {
                    drain.handle(DrainEvent::WriteFailed);
                } else {
                    sink.push(batch[i].clone());
                    drain.handle(DrainEvent::WriteSucceeded);
                }
            }
            DrainAction::Join => drain.handle(DrainEvent::GeneratorJoined(outcome)),
            DrainAction::Done => return (Ok(()), drain.sent()),
            DrainAction::Abort(e) => return (Err(e), drain.sent()),
        }
    }
}

fn queue_of(batches: Vec<Batch>) -> Receiver<Batch> {
    let (tx, rx) = bounded(batches.len().max(1));
    for b in batches {
        tx.send(b).unwrap();
    }
    rx
}

#[test]
fn three_syn_frames_reach_the_sink() {
    let settings = SendPacketSettingsBuilder::new()
        .ipv4_dst_ip([160, 251, 215, 3])
        .dst_port(80)
        .tcp_flags(TCP_FLAG_SYN)
        .payload(vec![])
        .packet_count(3)
        .interval(0)
        .build();
    let template = build_frame(&settings, 0).unwrap();
    let (tx, rx) = bounded(QUEUE_CAPACITY);
    let mut gen = Generation::new(settings.packet_count);
    let outcome = generate(&template, &mut gen, &tx);
    assert_eq!(outcome, GeneratorOutcome::Finished);
    assert_eq!(gen.remaining(), 0);
    drop(tx);
    let mut sink = Vec::new();
    let (result, sent) = drive(settings.packet_count, &rx, &mut sink, None, outcome);
    assert_eq!(result, Ok(()));
    assert_eq!(sent, 3);
    assert_eq!(sink.len(), 3);
    for frame in &sink {
        assert_eq!(frame, &sink[0]);
        assert_eq!(frame.len(), 54);
        assert_eq!(frame[47], TCP_FLAG_SYN);
        assert_eq!(frame[46] >> 4, 5);
        assert_eq!(&frame[30..34], &[160, 251, 215, 3]);
        assert_eq!(u16::from_be_bytes([frame[36], frame[37]]), 80);
    }
}

#[test]
fn unknown_preset_sends_nothing() {
    let sink: Vec<Vec<u8>> = Vec::new();
    let result = preset("nonexistent");
    assert_eq!(result.unwrap_err(), PacketSenderError::SettingsNotFound);
    assert!(sink.is_empty());
}

#[test]
fn drain_stops_at_count_mid_batch() {
    let rx = queue_of(vec![vec![vec![1], vec![2]], vec![vec![3], vec![4]], vec![vec![5], vec![6]]]);
    let mut sink = Vec::new();
    let (result, sent) = drive(5, &rx, &mut sink, None, GeneratorOutcome::Finished);
    assert_eq!(result, Ok(()));
    assert_eq!(sent, 5);
    assert_eq!(sink, vec![vec![1], vec![2], vec![3], vec![4], vec![5]]);
}

#[test]
fn zero_count_sends_nothing() {
    let rx = queue_of(vec![vec![vec![1]]]);
    let mut sink = Vec::new();
    let (result, sent) = drive(0, &rx, &mut sink, None, GeneratorOutcome::Finished);
    assert_eq!(result, Ok(()));
    assert_eq!(sent, 0);
    assert!(sink.is_empty());
    let drain = DrainLoop::new(0);
    assert_eq!(drain.next_action(), DrainAction::Join);
}

#[test]
fn frames_leave_in_queue_order() {
    let rx = queue_of(vec![vec![vec![1], vec![2], vec![3]], vec![], vec![vec![4]], vec![vec![5], vec![6]]]);
    let mut sink = Vec::new();
    let (result, _) = drive(6, &rx, &mut sink, None, GeneratorOutcome::Finished);
    assert_eq!(result, Ok(()));
    assert_eq!(sink, vec![vec![1], vec![2], vec![3], vec![4], vec![5], vec![6]]);
}

#[test]
fn bounded_queue_refuses_beyond_capacity() {
    let (tx, rx) = bounded::<Batch>(QUEUE_CAPACITY);
    let mut accepted = 0usize;
    loop {
        match tx.try_send(make_batch(&vec![0u8; 4], BATCH_SIZE)) {
            Ok(()) => accepted += 1,
            Err(TrySendError::Full(_)) => break,
            Err(TrySendError::Disconnected(_)) => panic!("queue closed"),
        }
        assert!(tx.len() <= QUEUE_CAPACITY);
    }
    assert_eq!(accepted, QUEUE_CAPACITY);
    rx.recv().unwrap();
    assert!(tx.try_send(make_batch(&vec![0u8; 4], BATCH_SIZE)).is_ok());
    assert!(tx.try_send(make_batch(&vec![0u8; 4], BATCH_SIZE)).is_err());
}

#[test]
fn first_write_failure_is_fatal() {
    let rx = queue_of(vec![vec![vec![1], vec![2]], vec![vec![3], vec![4]]]);
    let mut sink = Vec::new();
    let (result, sent) = drive(4, &rx, &mut sink, Some(1), GeneratorOutcome::Finished);
    assert_eq!(result, Err(PacketSenderError::PacketSendError));
    assert_eq!(sent, 1);
    assert!(sent < 4);
    assert_eq!(sink, vec![vec![1]]);
}

#[test]
fn failed_loop_ignores_further_events() {
    let mut drain = DrainLoop::new(2);
    drain.handle(DrainEvent::BatchReceived(2));
    drain.handle(DrainEvent::WriteFailed);
    drain.handle(DrainEvent::WriteSucceeded);
    drain.handle(DrainEvent::BatchReceived(5));
    assert_eq!(drain.sent(), 0);
    assert_eq!(drain.next_action(), DrainAction::Abort(PacketSenderError::PacketSendError));
}

#[test]
fn closed_queue_is_a_receive_error() {
    let rx = queue_of(vec![vec![vec![1]], vec![vec![2]]]);
    let mut sink = Vec::new();
    let (result, sent) = drive(5, &rx, &mut sink, None, GeneratorOutcome::Finished);
    assert_eq!(result, Err(PacketSenderError::ChannelReceiveError));
    assert_eq!(sent, 2);
}

#[test]
fn generator_failures_surface_at_join() {
    let rx = queue_of(vec![vec![vec![1]]]);
    let mut sink = Vec::new();
    let (result, _) = drive(1, &rx, &mut sink, None, GeneratorOutcome::QueueClosed);
    assert_eq!(result, Err(PacketSenderError::ChannelSendError));
    let rx = queue_of(vec![vec![vec![1]]]);
    let (result, _) = drive(1, &rx, &mut sink, None, GeneratorOutcome::Aborted);
    assert_eq!(result, Err(PacketSenderError::ThreadJoinError));
    assert_eq!(generator_result(GeneratorOutcome::Finished), Ok(()));
    assert_eq!(generator_result(GeneratorOutcome::QueueClosed), Err(PacketSenderError::ChannelSendError));
    assert_eq!(generator_result(GeneratorOutcome::Aborted), Err(PacketSenderError::ThreadJoinError));
}

#[test]
fn generate_reports_a_closed_queue() {
    let (tx, rx) = bounded::<Batch>(QUEUE_CAPACITY);
    drop(rx);
    let mut gen = Generation::new(5);
    assert_eq!(generate(&vec![1, 2, 3], &mut gen, &tx), GeneratorOutcome::QueueClosed);
    assert_eq!(gen.remaining(), 5);
}

#[test]
fn generate_sends_copies_of_the_template() {
    let template = vec![9u8, 8, 7];
    let (tx, rx) = bounded::<Batch>(QUEUE_CAPACITY);
    let mut gen = Generation::new(7);
    assert_eq!(generate(&template, &mut gen, &tx), GeneratorOutcome::Finished);
    assert_eq!(gen.remaining(), 0);
    drop(tx);
    let frames: Vec<Vec<u8>> = rx.iter().flatten().collect();
    assert_eq!(frames.len(), 7);
    assert!(frames.iter().all(|f| *f == template));
}

#[test]
fn generate_with_zero_count_sends_nothing() {
    let (tx, rx) = bounded::<Batch>(QUEUE_CAPACITY);
    let mut gen = Generation::new(0);
    assert_eq!(generate(&vec![1], &mut gen, &tx), GeneratorOutcome::Finished);
    drop(tx);
    assert_eq!(rx.iter().count(), 0);
}

#[test]
fn plan_covers_the_remaining_frames() {
    assert_eq!(plan_batches(5, 2, 100), vec![2, 2, 1]);
    assert_eq!(plan_batches(10, 1, 3), vec![1, 1, 1]);
    assert_eq!(plan_batches(6, 3, 100), vec![3, 3]);
    assert_eq!(plan_batches(0, 4, 100), Vec::<usize>::new());
    assert_eq!(plan_batches(5, 2, 0), Vec::<usize>::new());
}

#[test]
fn batches_hold_copies() {
    let b = make_batch(&vec![1, 2], 3);
    assert_eq!(b, vec![vec![1, 2], vec![1, 2], vec![1, 2]]);
    assert!(make_batch(&vec![1], 0).is_empty());
}

#[test]
fn progress_gate() {
    assert!(progress_due(PROGRESS_INTERVAL, 2_000_000_000, 0));
    assert!(progress_due(2 * PROGRESS_INTERVAL, 1_000_000_000, 0));
    assert!(!progress_due(PROGRESS_INTERVAL, 999_999_999, 0));
    assert!(!progress_due(PROGRESS_INTERVAL + 1, 5_000_000_000, 0));
    assert!(!progress_due(PROGRESS_INTERVAL, 5, 10));
}

#[test]
fn generate_hands_more_than_one_window() {
    let template = vec![5u8];
    let (tx, rx) = bounded::<Batch>(3 * QUEUE_CAPACITY);
    let mut gen = Generation::new(2 * QUEUE_CAPACITY + 7);
    assert_eq!(generate(&template, &mut gen, &tx), GeneratorOutcome::Finished);
    assert_eq!(gen.remaining(), 0);
    drop(tx);
    let batches: Vec<Batch> = rx.iter().collect();
    assert!(batches.iter().all(|b| b.len() == BATCH_SIZE));
    assert_eq!(batches.iter().map(|b| b.len()).sum::<usize>(), 2 * QUEUE_CAPACITY + 7);
}

#[test]
fn generation_records_handed_batches() {
    let mut gen = Generation::new(3);
    gen.batch_handed(1);
    assert_eq!(gen.remaining(), 2);
    gen.batch_handed(1);
    gen.batch_handed(1);
    assert_eq!(gen.remaining(), 0);
}
