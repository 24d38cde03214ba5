//! Tests for the translation between the signal vocabulary and native
//! signal numbers, checked against the numbers libc reports.

use mio_signals::Signal;
use mio_signals::from_raw_signal;
use mio_signals::raw_signal;

#[test]
fn mod_test_from_raw_signal() {
    assert_eq!(from_raw_signal(libc::SIGINT), Some(Signal::Interrupt));
    assert_eq!(from_raw_signal(libc::SIGQUIT), Some(Signal::Quit));
    assert_eq!(from_raw_signal(libc::SIGTERM), Some(Signal::Terminate));
    assert_eq!(from_raw_signal(libc::SIGUSR1), Some(Signal::User1));
    assert_eq!(from_raw_signal(libc::SIGUSR2), Some(Signal::User2));

    // Unsupported signals.
    assert_eq!(from_raw_signal(libc::SIGSTOP), None);
}

#[test]
fn mod_test_raw_signal() {
    assert_eq!(raw_signal(Signal::Interrupt), libc::SIGINT);
    assert_eq!(raw_signal(Signal::Quit), libc::SIGQUIT);
    assert_eq!(raw_signal(Signal::Terminate), libc::SIGTERM);
    assert_eq!(raw_signal(Signal::User1), libc::SIGUSR1);
    assert_eq!(raw_signal(Signal::User2), libc::SIGUSR2);
}

#[test]
fn mod_raw_signal_round_trip() {
    assert_eq!(
        raw_signal(from_raw_signal(libc::SIGINT).unwrap()),
        libc::SIGINT
    );
    assert_eq!(
        raw_signal(from_raw_signal(libc::SIGQUIT).unwrap()),
        libc::SIGQUIT
    );
    assert_eq!(
        raw_signal(from_raw_signal(libc::SIGTERM).unwrap()),
        libc::SIGTERM
    );
    assert_eq!(
        raw_signal(from_raw_signal(libc::SIGUSR1).unwrap()),
        libc::SIGUSR1
    );
    assert_eq!(
        raw_signal(from_raw_signal(libc::SIGUSR2).unwrap()),
        libc::SIGUSR2
    );
}

#[test]
fn unix_test_from_raw_signal() {
    assert_eq!(from_raw_signal(libc::SIGINT), Some(Signal::Interrupt));
    assert_eq!(from_raw_signal(libc::SIGQUIT), Some(Signal::Quit));
    assert_eq!(from_raw_signal(libc::SIGTERM), Some(Signal::Terminate));

    // Unsupported signals.
    assert_eq!(from_raw_signal(libc::SIGSTOP), None);
}

#[test]
fn unix_test_raw_signal() {
    assert_eq!(raw_signal(Signal::Interrupt), libc::SIGINT);
    assert_eq!(raw_signal(Signal::Quit), libc::SIGQUIT);
    assert_eq!(raw_signal(Signal::Terminate), libc::SIGTERM);
}

#[test]
fn unix_raw_signal_round_trip() {
    assert_eq!(
        raw_signal(from_raw_signal(libc::SIGINT).unwrap()),
        libc::SIGINT
    );
    assert_eq!(
        raw_signal(from_raw_signal(libc::SIGQUIT).unwrap()),
        libc::SIGQUIT
    );
    assert_eq!(
        raw_signal(from_raw_signal(libc::SIGTERM).unwrap()),
        libc::SIGTERM
    );
}

#[test]
fn every_signal_round_trips() {
    let signals = [
        Signal::Interrupt,
        Signal::Quit,
        Signal::Terminate,
        Signal::User1,
        Signal::User2,
    ];
    for signal in signals {
        assert_eq!(from_raw_signal(raw_signal(signal)), Some(signal));
        assert_eq!(
            raw_signal(from_raw_signal(raw_signal(signal)).unwrap()),
            raw_signal(signal)
        );
    }
}

#[test]
fn unknown_numbers_are_filtered() {
    for raw in [-1, 0, 1, 4, 9, 11, 13, 14, 16, 64, i32::MAX, i32::MIN] {
        assert_eq!(from_raw_signal(raw), None);
    }
}
