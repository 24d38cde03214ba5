//! Tests for the backend decision logic: what `receive()` does with each
//! classified kernel outcome, the pipe record codec, and the native number
//! list a backend blocks and restores.

use mio_signals::Signal;
use mio_signals::SignalSet;
use mio_signals::backend::PIPE_RECORD_LEN;
use mio_signals::backend::PipeRead;
use mio_signals::backend::QueuePoll;
use mio_signals::backend::QueueRead;
use mio_signals::backend::ReceiveStep;
use mio_signals::backend::SIGNAL_QUEUE_RECORD_LEN;
use mio_signals::backend::decode_raw_signal;
use mio_signals::backend::encode_raw_signal;
use mio_signals::backend::kqueue_receive_step;
use mio_signals::backend::pipe_receive_step;
use mio_signals::backend::queue_receive_step;
use mio_signals::backend::raw_signals;
use mio_signals::backend::signal_index;
use mio_signals::raw_signal;

#[test]
fn queue_drains_without_blocking() {
    // Nothing pending: the answer is "none", never a wait.
    assert_eq!(
        queue_receive_step(QueueRead::WouldBlock),
        ReceiveStep::Drained
    );
}

#[test]
fn queue_retries_after_interruption() {
    assert_eq!(
        queue_receive_step(QueueRead::Interrupted),
        ReceiveStep::Retry
    );
}

#[test]
fn queue_surfaces_other_errors() {
    assert_eq!(
        queue_receive_step(QueueRead::Failed(libc::EBADF)),
        ReceiveStep::Fail(libc::EBADF)
    );
}

#[test]
fn queue_decodes_full_records() {
    let record = QueueRead::Record(SIGNAL_QUEUE_RECORD_LEN, libc::SIGINT as u32);
    assert_eq!(
        queue_receive_step(record),
        ReceiveStep::Yield(Signal::Interrupt)
    );
    let record = QueueRead::Record(SIGNAL_QUEUE_RECORD_LEN, libc::SIGTERM as u32);
    assert_eq!(
        queue_receive_step(record),
        ReceiveStep::Yield(Signal::Terminate)
    );
}

#[test]
fn queue_ignores_foreign_signals() {
    // A record naming a signal outside the vocabulary is not ours: keep
    // draining.
    let record = QueueRead::Record(SIGNAL_QUEUE_RECORD_LEN, libc::SIGSTOP as u32);
    assert_eq!(queue_receive_step(record), ReceiveStep::Retry);
}

#[test]
fn queue_rejects_short_records() {
    assert_eq!(
        queue_receive_step(QueueRead::Record(SIGNAL_QUEUE_RECORD_LEN - 1, 2)),
        ReceiveStep::Violation
    );
    assert_eq!(
        queue_receive_step(QueueRead::Record(0, 2)),
        ReceiveStep::Violation
    );
}

#[test]
fn kqueue_empty_poll_means_drained() {
    assert_eq!(
        kqueue_receive_step(QueuePoll::Events(0, false, 0)),
        ReceiveStep::Drained
    );
}

#[test]
fn kqueue_decodes_signal_events() {
    let poll = QueuePoll::Events(1, true, libc::SIGQUIT as u64);
    assert_eq!(kqueue_receive_step(poll), ReceiveStep::Yield(Signal::Quit));
}

#[test]
fn kqueue_rejects_foreign_events() {
    // An identifier never registered, a foreign filter, or more events
    // than asked for: a loud failure, not a silent "none".
    let unknown_ident = QueuePoll::Events(1, true, libc::SIGSTOP as u64);
    assert_eq!(kqueue_receive_step(unknown_ident), ReceiveStep::Violation);
    let foreign_filter = QueuePoll::Events(1, false, libc::SIGINT as u64);
    assert_eq!(kqueue_receive_step(foreign_filter), ReceiveStep::Violation);
    let excess = QueuePoll::Events(2, true, libc::SIGINT as u64);
    assert_eq!(kqueue_receive_step(excess), ReceiveStep::Violation);
}

#[test]
fn kqueue_surfaces_poll_errors() {
    assert_eq!(
        kqueue_receive_step(QueuePoll::Failed(libc::EBADF)),
        ReceiveStep::Fail(libc::EBADF)
    );
}

#[test]
fn record_codec_round_trips() {
    for raw in [0, 2, 3, 15, 10, 12, 255, 256, 65_537, i32::MAX, -1, i32::MIN] {
        assert_eq!(decode_raw_signal(encode_raw_signal(raw)), raw);
    }
}

#[test]
fn record_codec_exact_bytes() {
    assert_eq!(encode_raw_signal(2), [2, 0, 0, 0]);
    assert_eq!(encode_raw_signal(15), [15, 0, 0, 0]);
    assert_eq!(encode_raw_signal(0x0403_0201), [1, 2, 3, 4]);
    assert_eq!(encode_raw_signal(-1), [0xff, 0xff, 0xff, 0xff]);
    assert_eq!(decode_raw_signal([1, 2, 3, 4]), 0x0403_0201);
}

#[test]
fn pipe_decodes_full_records() {
    let record = PipeRead::Record(PIPE_RECORD_LEN, encode_raw_signal(libc::SIGUSR1));
    assert_eq!(pipe_receive_step(record), ReceiveStep::Yield(Signal::User1));
}

#[test]
fn pipe_ignores_foreign_signals() {
    let record = PipeRead::Record(PIPE_RECORD_LEN, encode_raw_signal(libc::SIGSTOP));
    assert_eq!(pipe_receive_step(record), ReceiveStep::Retry);
}

#[test]
fn pipe_rejects_partial_records() {
    let record = PipeRead::Record(1, encode_raw_signal(libc::SIGINT));
    assert_eq!(pipe_receive_step(record), ReceiveStep::Violation);
    let eof = PipeRead::Record(0, encode_raw_signal(libc::SIGINT));
    assert_eq!(pipe_receive_step(eof), ReceiveStep::Violation);
}

#[test]
fn pipe_drains_retries_and_fails_like_the_queue() {
    assert_eq!(pipe_receive_step(PipeRead::WouldBlock), ReceiveStep::Drained);
    assert_eq!(pipe_receive_step(PipeRead::Interrupted), ReceiveStep::Retry);
    assert_eq!(
        pipe_receive_step(PipeRead::Failed(libc::EIO)),
        ReceiveStep::Fail(libc::EIO)
    );
}

#[test]
fn raw_signals_lists_every_member_once() {
    let set = Signal::Interrupt | Signal::Quit | Signal::Terminate;
    let raws = raw_signals(set);
    assert_eq!(raws.len(), 3);
    for raw in [libc::SIGINT, libc::SIGQUIT, libc::SIGTERM] {
        assert_eq!(raws.iter().filter(|r| **r == raw).count(), 1);
    }

    let raws = raw_signals(SignalSet::all());
    assert_eq!(raws.len(), 5);
    let raws_again = raw_signals(SignalSet::all());
    assert_eq!(raws, raws_again);

    let raws = raw_signals(SignalSet::from(Signal::User2));
    assert_eq!(raws, vec![libc::SIGUSR2]);
}

#[test]
fn signal_slots_are_distinct() {
    let signals = [
        Signal::Interrupt,
        Signal::Quit,
        Signal::Terminate,
        Signal::User1,
        Signal::User2,
    ];
    for a in signals {
        assert!(signal_index(a) < signals.len());
        for b in signals {
            if a != b {
                assert_ne!(signal_index(a), signal_index(b));
            }
        }
    }
}

#[test]
fn scenario_drain_after_delivery() {
    // Construct over {Interrupt, Quit, Terminate}; the backend blocks
    // exactly those three native signals.
    let set = Signal::Interrupt | Signal::Quit | Signal::Terminate;
    let blocked = raw_signals(set);
    assert_eq!(blocked.len(), 3);
    assert!(blocked.contains(&raw_signal(Signal::Interrupt)));

    // An interrupt arrives: one full record is queued. Draining yields it
    // exactly once, then reports "none".
    let record = QueueRead::Record(SIGNAL_QUEUE_RECORD_LEN, raw_signal(Signal::Interrupt) as u32);
    assert_eq!(
        queue_receive_step(record),
        ReceiveStep::Yield(Signal::Interrupt)
    );
    assert_eq!(
        queue_receive_step(QueueRead::WouldBlock),
        ReceiveStep::Drained
    );

    // Later a termination request arrives and is drained the same way.
    let record = QueueRead::Record(SIGNAL_QUEUE_RECORD_LEN, raw_signal(Signal::Terminate) as u32);
    assert_eq!(
        queue_receive_step(record),
        ReceiveStep::Yield(Signal::Terminate)
    );

    // Teardown restores exactly the numbers blocked at construction.
    let restored = raw_signals(set);
    assert_eq!(blocked, restored);
}
