//! The decisions a signal backend takes, separated from the system calls
//! that carry them out.
//!
//! Each backend owns one kernel object — a kernel event queue, a kernel
//! signal queue descriptor, or a self-notify pipe — and serves `receive()`
//! by one non-blocking attempt on it at a time. The functions here take the
//! classified outcome of such an attempt and decide what `receive()` must
//! do next; the caller performs the system call itself and acts on the
//! returned [`ReceiveStep`]. They also build the list of native signal
//! numbers a backend blocks, registers and later restores, and the fixed
//! four-byte record a self-notify pipe carries.

use vstd::prelude::*;

use crate::raw::raw_signal;
use crate::raw::spec_from_raw_signal;
use crate::raw::spec_raw_signal;
use crate::signal::Signal;
use crate::signal::SignalSet;

verus! {

/// Size in bytes of one record read from the kernel signal queue
/// descriptor; the kernel always delivers exactly this much per signal.
pub const SIGNAL_QUEUE_RECORD_LEN: usize = 128;

/// Size in bytes of one record carried by the self-notify pipe: a native
/// signal number as four little-endian bytes.
pub const PIPE_RECORD_LEN: usize = 4;

/// Number of slots in the process-wide table that maps each supported
/// signal to the pipe descriptor its handler writes to.
pub const SIGNAL_TABLE_LEN: usize = 5;

/// What `receive()` must do after one attempt at the backend's kernel
/// object.
#[derive(Copy, Clone, Debug, Eq, PartialEq, Structural)]
pub enum ReceiveStep {
    /// A signal was drained: return it to the caller.
    Yield(Signal),
    /// Nothing is pending right now: report "none" without blocking.
    Drained,
    /// The attempt came back interrupted, or the record was not ours:
    /// ignore it and try again.
    Retry,
    /// Surface this raw OS error to the caller.
    Fail(i32),
    /// The kernel object broke an invariant this crate relies on (a record
    /// of the wrong size, or an event this backend never registered): the
    /// caller must fail loudly rather than coerce this into "none".
    Violation,
}

/// Outcome of one non-blocking read of the kernel signal queue descriptor,
/// as classified by the caller: a record of `len` bytes whose signal number
/// field held `signo`, or how the read failed.
#[derive(Copy, Clone, Debug, Eq, PartialEq, Structural)]
pub enum QueueRead {
    /// `read` returned `len` bytes; `signo` is the record's signal number.
    Record(usize, u32),
    /// The read would have blocked: nothing is queued.
    WouldBlock,
    /// The read was interrupted before anything arrived.
    Interrupted,
    /// The read failed with this raw OS error.
    Failed(i32),
}

/// Outcome of one zero-timeout poll of the private kernel event queue: how
/// many events came back, whether the first carries the signal filter, and
/// its identifying value; or the raw OS error the poll failed with.
#[derive(Copy, Clone, Debug, Eq, PartialEq, Structural)]
pub enum QueuePoll {
    /// `count` events were returned; `signal_filter` says whether the first
    /// carries the "signal occurred" filter, and `ident` identifies it.
    Events(usize, bool, u64),
    /// The poll failed with this raw OS error.
    Failed(i32),
}

/// Outcome of one non-blocking read of the self-notify pipe: a record of
/// `len` bytes, or how the read failed.
#[derive(Copy, Clone, Debug)]
pub enum PipeRead {
    /// `read` returned `len` bytes into the four-byte record buffer.
    Record(usize, [u8; 4]),
    /// The read would have blocked: nothing is queued.
    WouldBlock,
    /// The read was interrupted before anything arrived.
    Interrupted,
    /// The read failed with this raw OS error.
    Failed(i32),
}

/// Decide what `receive()` does after one non-blocking read of the kernel
/// signal queue descriptor.
///
/// A full record yields the signal its number names, or is ignored when the
/// number is outside the vocabulary; a short or long read is an invariant
/// violation, since the kernel never splits these records.
pub fn queue_receive_step(read: QueueRead) -> (r: ReceiveStep)
    ensures
        (match read {
            QueueRead::Record(len, signo) => r == (if len == SIGNAL_QUEUE_RECORD_LEN {
                match spec_from_raw_signal(signo as i32) {
                    Some(s) => ReceiveStep::Yield(s),
                    None => ReceiveStep::Retry,
                }
            } else {
                ReceiveStep::Violation
            }),
            QueueRead::WouldBlock => r == ReceiveStep::Drained,
            QueueRead::Interrupted => r == ReceiveStep::Retry,
            QueueRead::Failed(errno) => r == ReceiveStep::Fail(errno),
        }),
{
    match read {
        QueueRead::Record(len, signo) => {
            if len == SIGNAL_QUEUE_RECORD_LEN {
                match crate::raw::from_raw_signal(#[verifier::truncate] (signo as i32)) {
                    Some(s) => ReceiveStep::Yield(s),
                    None => ReceiveStep::Retry,
                }
            } else {
                ReceiveStep::Violation
            }
        },
        QueueRead::WouldBlock => ReceiveStep::Drained,
        QueueRead::Interrupted => ReceiveStep::Retry,
        QueueRead::Failed(errno) => ReceiveStep::Fail(errno),
    }
}

/// Decide what `receive()` does after one zero-timeout poll of the private
/// kernel event queue.
///
/// No event means nothing is pending. Exactly one event with the signal
/// filter yields the signal its identifier names; an identifier this
/// backend never registered, a foreign filter, or more events than asked
/// for is an invariant violation.
pub fn kqueue_receive_step(poll: QueuePoll) -> (r: ReceiveStep)
    ensures
        (match poll {
            QueuePoll::Events(count, signal_filter, ident) => r == (if count == 0 {
                ReceiveStep::Drained
            } else if count == 1 && signal_filter {
                match spec_from_raw_signal(ident as i32) {
                    Some(s) => ReceiveStep::Yield(s),
                    None => ReceiveStep::Violation,
                }
            } else {
                ReceiveStep::Violation
            }),
            QueuePoll::Failed(errno) => r == ReceiveStep::Fail(errno),
        }),
{
    match poll {
        QueuePoll::Events(count, signal_filter, ident) => {
            if count == 0 {
                ReceiveStep::Drained
            } else if count == 1 && signal_filter {
                match crate::raw::from_raw_signal(#[verifier::truncate] (ident as i32)) {
                    Some(s) => ReceiveStep::Yield(s),
                    None => ReceiveStep::Violation,
                }
            } else {
                ReceiveStep::Violation
            }
        },
        QueuePoll::Failed(errno) => ReceiveStep::Fail(errno),
    }
}

/// The native signal number a four-byte pipe record encodes.
pub open spec fn spec_record_signal(bytes: Seq<u8>) -> i32
    recommends
        bytes.len() == 4,
{
    (((bytes[0] as u32) | ((bytes[1] as u32) << 8) | ((bytes[2] as u32) << 16) | ((
    bytes[3] as u32) << 24)) as i32)
}

/// The four-byte pipe record that encodes native signal number `raw`.
pub open spec fn spec_signal_record(raw: i32) -> Seq<u8> {
    seq![
        ((raw as u32) & 0xff) as u8,
        (((raw as u32) >> 8) & 0xff) as u8,
        (((raw as u32) >> 16) & 0xff) as u8,
        (((raw as u32) >> 24) & 0xff) as u8,
    ]
}

/// Encode a native signal number as the fixed four-byte pipe record.
///
/// This is the only work a real signal handler does beyond one atomic load
/// and one write, so it allocates nothing and always succeeds.
pub fn encode_raw_signal(raw: i32) -> (r: [u8; 4])
    ensures
        r@ == spec_signal_record(raw),
        spec_record_signal(r@) == raw,
{
    let v = #[verifier::truncate] (raw as u32);
    proof {
        lemma_record_bytes(v);
        lemma_record_sign(raw);
    }
    let r = [
        #[verifier::truncate] ((v & 0xff) as u8),
        #[verifier::truncate] (((v >> 8) & 0xff) as u8),
        #[verifier::truncate] (((v >> 16) & 0xff) as u8),
        #[verifier::truncate] (((v >> 24) & 0xff) as u8),
    ];
    proof {
        assert(r@ =~= spec_signal_record(raw));
    }
    r
}

/// Decode the fixed four-byte pipe record back into a native signal number.
pub fn decode_raw_signal(bytes: [u8; 4]) -> (r: i32)
    ensures
        r == spec_record_signal(bytes@),
{
    let v = (bytes[0] as u32) | ((bytes[1] as u32) << 8) | ((bytes[2] as u32) << 16) | ((
    bytes[3] as u32) << 24);
    #[verifier::truncate] (v as i32)
}

/// Encoding a native signal number and decoding the record yields the
/// number again: the two ends of the pipe agree on the format.
pub proof fn lemma_record_round_trip(raw: i32)
    ensures
        spec_record_signal(spec_signal_record(raw)) == raw,
{
    let v = raw as u32;
    lemma_record_bytes(v);
    lemma_record_sign(raw);
}

/// Decide what `receive()` does after one non-blocking read of the
/// self-notify pipe.
///
/// A full four-byte record yields the signal its number names, or is
/// ignored when the number is outside the vocabulary; any other byte count
/// is an invariant violation, since pipe writes of this size are atomic.
pub fn pipe_receive_step(read: PipeRead) -> (r: ReceiveStep)
    ensures
        (match read {
            PipeRead::Record(len, bytes) => r == (if len == PIPE_RECORD_LEN {
                match spec_from_raw_signal(spec_record_signal(bytes@)) {
                    Some(s) => ReceiveStep::Yield(s),
                    None => ReceiveStep::Retry,
                }
            } else {
                ReceiveStep::Violation
            }),
            PipeRead::WouldBlock => r == ReceiveStep::Drained,
            PipeRead::Interrupted => r == ReceiveStep::Retry,
            PipeRead::Failed(errno) => r == ReceiveStep::Fail(errno),
        }),
{
    match read {
        PipeRead::Record(len, bytes) => {
            if len == PIPE_RECORD_LEN {
                match crate::raw::from_raw_signal(decode_raw_signal(bytes)) {
                    Some(s) => ReceiveStep::Yield(s),
                    None => ReceiveStep::Retry,
                }
            } else {
                ReceiveStep::Violation
            }
        },
        PipeRead::WouldBlock => ReceiveStep::Drained,
        PipeRead::Interrupted => ReceiveStep::Retry,
        PipeRead::Failed(errno) => ReceiveStep::Fail(errno),
    }
}

/// The slot of `signal` in the process-wide descriptor table of the
/// self-notify backend.
pub open spec fn spec_signal_index(signal: Signal) -> int {
    match signal {
        Signal::Interrupt => 0,
        Signal::Quit => 1,
        Signal::Terminate => 2,
        Signal::User1 => 3,
        Signal::User2 => 4,
    }
}

/// The slot of `signal` in the process-wide descriptor table of the
/// self-notify backend; distinct signals get distinct slots.
pub fn signal_index(signal: Signal) -> (r: usize)
    ensures
        r == spec_signal_index(signal),
        r < SIGNAL_TABLE_LEN,
{
    match signal {
        Signal::Interrupt => 0,
        Signal::Quit => 1,
        Signal::Terminate => 2,
        Signal::User1 => 3,
        Signal::User2 => 4,
    }
}

/// The native numbers of the members of `signals`, in ascending bit order,
/// each exactly once: the exact contents of the mask a backend blocks or
/// ignores at construction and restores at teardown.
pub fn raw_signals(signals: SignalSet) -> (r: Vec<i32>)
    ensures
        r@ == signals.to_seq().map_values(|s: Signal| spec_raw_signal(s)),
        r@.len() == signals@.len(),
        r@.len() >= 1,
{
    let ghost members = signals.to_seq();
    let mut iter = signals.into_iter();
    let mut out: Vec<i32> = Vec::new();
    proof {
        assert(members.take(0) =~= Seq::<Signal>::empty());
        assert(out@ =~= members.take(0).map_values(|s: Signal| spec_raw_signal(s)));
    }
    loop
        invariant_except_break
            out@.len() <= members.len(),
            iter@ == members.skip(out@.len() as int),
            out@ == members.take(out@.len() as int).map_values(|s: Signal| spec_raw_signal(s)),
        ensures
            out@ == members.map_values(|s: Signal| spec_raw_signal(s)),
            out@.len() == members.len(),
        decreases iter@.len(),
    {
        let ghost n = out@.len() as int;
        match iter.next() {
            Some(signal) => {
                proof {
                    assert(members.skip(n)[0] == members[n]);
                    assert(members.take(n + 1) =~= members.take(n).push(members[n]));
                    assert(members.take(n + 1).map_values(|s: Signal| spec_raw_signal(s))
                        =~= members.take(n).map_values(|s: Signal| spec_raw_signal(s)).push(
                        spec_raw_signal(members[n])));
                    assert(members.skip(n).skip(1) =~= members.skip(n + 1));
                }
                out.push(raw_signal(signal));
            },
            None => {
                proof {
                    assert(members.take(n) =~= members);
                }
                break ;
            },
        }
    }
    out
}

// Reading a signal number back through the unsigned record leaves it as it
// was.
proof fn lemma_record_sign(raw: i32)
    by (bit_vector)
    ensures
        ((raw as u32) as i32) == raw,
{
}

// The four little-endian bytes of a 32-bit value put it back together.
proof fn lemma_record_bytes(v: u32)
    by (bit_vector)
    ensures
        ((((v & 0xff) as u8) as u32) | ((((v >> 8) & 0xff) as u8) as u32) << 8 | ((((v >> 16)
            & 0xff) as u8) as u32) << 16 | ((((v >> 24) & 0xff) as u8) as u32) << 24) == v,
{
}

} // verus!
