//! The signal vocabulary: the closed [`Signal`] enumeration and the non-empty
//! bit-set [`SignalSet`] over it.
//!
//! A `SignalSet` is one byte with one bit per supported signal; its invariant
//! says the byte is never zero and holds no bit outside the vocabulary. Its
//! mathematical view is the `Set<Signal>` of its members. Iteration works on
//! a private copy of the bits, so a set value is never mutated by walking it.

use vstd::prelude::*;
use vstd::std_specs::ops::BitOrSpec;

verus! {

/// Signal delivered to the process.
#[derive(Copy, Clone, Debug, Eq, PartialEq, Ord, PartialOrd, Hash, Structural)]
pub enum Signal {
    /// Interrupt signal, sent for example when Ctrl+C is pressed in most
    /// terminals.
    ///
    /// Corresponds to POSIX signal `SIGINT`.
    Interrupt,
    /// Terminal quit signal: the process is requested to quit and perform a
    /// core dump.
    ///
    /// Corresponds to POSIX signal `SIGQUIT`.
    Quit,
    /// Termination request signal, sent for example by the `kill` command,
    /// allowing the process to release its resources and save state.
    ///
    /// Corresponds to POSIX signal `SIGTERM`.
    Terminate,
    /// First user-defined signal.
    ///
    /// Corresponds to POSIX signal `SIGUSR1`.
    User1,
    /// Second user-defined signal.
    ///
    /// Corresponds to POSIX signal `SIGUSR2`.
    User2,
}

// One bit per signal; these may never be zero.
/// Bit of [`Signal::Interrupt`] inside a set.
pub const INTERRUPT: u8 = 1;

/// Bit of [`Signal::Quit`] inside a set.
pub const QUIT: u8 = 2;

/// Bit of [`Signal::Terminate`] inside a set.
pub const TERMINATE: u8 = 4;

/// Bit of [`Signal::User1`] inside a set.
pub const USER1: u8 = 8;

/// Bit of [`Signal::User2`] inside a set.
pub const USER2: u8 = 16;

/// Every vocabulary bit set at once.
pub const ALL_BITS: u8 = 31;

/// The bit that stands for `s` inside a `SignalSet`.
pub open spec fn signal_bit(s: Signal) -> u8 {
    match s {
        Signal::Interrupt => INTERRUPT,
        Signal::Quit => QUIT,
        Signal::Terminate => TERMINATE,
        Signal::User1 => USER1,
        Signal::User2 => USER2,
    }
}

/// The signals whose bit is set in `bits`.
pub open spec fn set_of_bits(bits: u8) -> Set<Signal> {
    Set::new(|s: Signal| bits & signal_bit(s) != 0)
}

/// The members of `bits` in ascending bit order, each exactly once.
pub open spec fn seq_of_bits(bits: u8) -> Seq<Signal> {
    (if bits & INTERRUPT != 0 { seq![Signal::Interrupt] } else { Seq::empty() })
        + (if bits & QUIT != 0 { seq![Signal::Quit] } else { Seq::empty() })
        + (if bits & TERMINATE != 0 { seq![Signal::Terminate] } else { Seq::empty() })
        + (if bits & USER1 != 0 { seq![Signal::User1] } else { Seq::empty() })
        + (if bits & USER2 != 0 { seq![Signal::User2] } else { Seq::empty() })
}

/// How many vocabulary bits are set in `bits`.
pub open spec fn count_bits(bits: u8) -> int {
    (if bits & INTERRUPT != 0 { 1int } else { 0 })
        + (if bits & QUIT != 0 { 1int } else { 0 })
        + (if bits & TERMINATE != 0 { 1int } else { 0 })
        + (if bits & USER1 != 0 { 1int } else { 0 })
        + (if bits & USER2 != 0 { 1int } else { 0 })
}

/// Set of [`Signal`]s used when registering signal notifications.
///
/// A set can never be empty: it is built from at least one signal, or from
/// the full vocabulary.
#[derive(Copy, Clone, Debug, Eq, PartialEq, Ord, PartialOrd, Hash, Structural)]
pub struct SignalSet {
    bits: u8,
}

impl View for SignalSet {
    type V = Set<Signal>;

    closed spec fn view(&self) -> Set<Signal> {
        set_of_bits(self.bits)
    }
}

impl SignalSet {
    /// A set is one non-zero byte of vocabulary bits.
    #[verifier::type_invariant]
    pub closed spec fn well_formed(self) -> bool {
        0 < self.bits <= ALL_BITS
    }

    /// The members of the set in ascending bit order, each exactly once.
    pub closed spec fn to_seq(self) -> Seq<Signal> {
        seq_of_bits(self.bits)
    }

    /// Create a new set with all signals.
    pub fn all() -> (r: SignalSet)
        ensures
            forall|s: Signal| r@.contains(s),
            r@.len() == 5,
    {
        let r = SignalSet { bits: ALL_BITS };
        proof {
            assert forall|s: Signal| r@.contains(s) by {
                lemma_bits_facts(ALL_BITS);
            }
            lemma_count_is_card(ALL_BITS);
            assert(count_bits(ALL_BITS) == 5) by (bit_vector);
        }
        r
    }

    /// The set holding exactly `signal`.
    pub closed spec fn spec_from(signal: Signal) -> SignalSet {
        SignalSet { bits: signal_bit(signal) }
    }

    /// Create a set holding exactly `signal`.
    pub fn from(signal: Signal) -> (r: SignalSet)
        ensures
            r == SignalSet::spec_from(signal),
            r@ == set![signal],
            r@.len() == 1,
    {
        let bits = bit_of(signal);
        let r = SignalSet { bits };
        proof {
            lemma_bits_facts(bits);
            assert(r@ =~= set![signal]);
            lemma_count_is_card(bits);
        }
        r
    }

    /// Number of signals in the set.
    pub fn len(self) -> (r: usize)
        ensures
            r == self@.len(),
            r >= 1,
    {
        proof {
            use_type_invariant(self);
            lemma_count_is_card(self.bits);
            lemma_bits_facts(self.bits);
        }
        let b = self.bits;
        let mut n: usize = 0;
        if b & INTERRUPT != 0 {
            n = n + 1;
        }
        if b & QUIT != 0 {
            n = n + 1;
        }
        if b & TERMINATE != 0 {
            n = n + 1;
        }
        if b & USER1 != 0 {
            n = n + 1;
        }
        if b & USER2 != 0 {
            n = n + 1;
        }
        n
    }

    /// Whether or not all signals in `other` are contained within `self`.
    pub fn contains(self, other: SignalSet) -> (r: bool)
        ensures
            r == other@.subset_of(self@),
    {
        proof {
            use_type_invariant(self);
            use_type_invariant(other);
        }
        let a = self.bits;
        let b = other.bits;
        let r = (a & b) == b;
        proof {
            lemma_subset_bits(a, b);
            if r {
                assert forall|s: Signal| other@.contains(s) implies self@.contains(s) by {}
            } else {
                assert(exists|s: Signal| other@.contains(s) && !self@.contains(s)) by {
                    if b & INTERRUPT != 0 && a & INTERRUPT == 0 {
                        assert(other@.contains(Signal::Interrupt) && !self@.contains(
                            Signal::Interrupt,
                        ));
                    } else if b & QUIT != 0 && a & QUIT == 0 {
                        assert(other@.contains(Signal::Quit) && !self@.contains(Signal::Quit));
                    } else if b & TERMINATE != 0 && a & TERMINATE == 0 {
                        assert(other@.contains(Signal::Terminate) && !self@.contains(
                            Signal::Terminate,
                        ));
                    } else if b & USER1 != 0 && a & USER1 == 0 {
                        assert(other@.contains(Signal::User1) && !self@.contains(Signal::User1));
                    } else {
                        assert(other@.contains(Signal::User2) && !self@.contains(Signal::User2));
                    }
                }
            }
        }
        r
    }

    /// An iterator over the signals of this set, working on a private copy of
    /// the bits: the set itself is never changed, and iterating twice yields
    /// the same members twice.
    pub fn into_iter(self) -> (r: SignalSetIter)
        ensures
            r@ == self.to_seq(),
            r@.to_set() == self@,
            r@.no_duplicates(),
            r@.len() == self@.len(),
            r@.len() >= 1,
    {
        proof {
            use_type_invariant(self);
            lemma_seq_of_bits(self.bits);
            lemma_count_is_card(self.bits);
            lemma_bits_facts(self.bits);
        }
        SignalSetIter { bits: self.bits }
    }
}

/// Iterator over the members of a [`SignalSet`], in ascending bit order.
///
/// Yields each member exactly once; once exhausted it stays exhausted.
#[derive(Copy, Clone, Debug, Eq, PartialEq, Structural)]
pub struct SignalSetIter {
    bits: u8,
}

impl View for SignalSetIter {
    type V = Seq<Signal>;

    closed spec fn view(&self) -> Seq<Signal> {
        seq_of_bits(self.bits)
    }
}

impl SignalSetIter {
    /// The bits may run out, but never hold anything outside the vocabulary.
    #[verifier::type_invariant]
    pub closed spec fn well_formed(self) -> bool {
        self.bits <= ALL_BITS
    }

    /// The next signal of the set, lowest remaining bit first; `None` once
    /// every member has been yielded.
    pub fn next(&mut self) -> (r: Option<Signal>)
        ensures
            old(self)@.len() == 0 ==> r is None && final(self)@ == old(self)@,
            old(self)@.len() > 0 ==> r == Some(old(self)@[0]) && final(self)@ == old(self)@.skip(
                1,
            ),
    {
        proof {
            use_type_invariant(&*self);
            lemma_seq_of_bits(self.bits);
            lemma_clear_lowest(self.bits);
        }
        let b = self.bits;
        if b & INTERRUPT != 0 {
            self.bits = b & 0xfe;
            proof {
                lemma_seq_of_bits(self.bits);
                assert(seq_of_bits(b & 0xfe) =~= seq_of_bits(b).skip(1));
            }
            Some(Signal::Interrupt)
        } else if b & QUIT != 0 {
            self.bits = b & 0xfd;
            proof {
                lemma_seq_of_bits(self.bits);
                assert(seq_of_bits(b & 0xfd) =~= seq_of_bits(b).skip(1));
            }
            Some(Signal::Quit)
        } else if b & TERMINATE != 0 {
            self.bits = b & 0xfb;
            proof {
                lemma_seq_of_bits(self.bits);
                assert(seq_of_bits(b & 0xfb) =~= seq_of_bits(b).skip(1));
            }
            Some(Signal::Terminate)
        } else if b & USER1 != 0 {
            self.bits = b & 0xf7;
            proof {
                lemma_seq_of_bits(self.bits);
                assert(seq_of_bits(b & 0xf7) =~= seq_of_bits(b).skip(1));
            }
            Some(Signal::User1)
        } else if b & USER2 != 0 {
            self.bits = b & 0xef;
            proof {
                lemma_seq_of_bits(self.bits);
                assert(seq_of_bits(b & 0xef) =~= seq_of_bits(b).skip(1));
            }
            Some(Signal::User2)
        } else {
            proof {
                assert(seq_of_bits(b) =~= Seq::<Signal>::empty());
            }
            None
        }
    }

    /// How many signals are still to come.
    pub fn len(&self) -> (r: usize)
        ensures
            r == self@.len(),
    {
        proof {
            use_type_invariant(&*self);
            lemma_seq_of_bits(self.bits);
        }
        let b = self.bits;
        let mut n: usize = 0;
        if b & INTERRUPT != 0 {
            n = n + 1;
        }
        if b & QUIT != 0 {
            n = n + 1;
        }
        if b & TERMINATE != 0 {
            n = n + 1;
        }
        if b & USER1 != 0 {
            n = n + 1;
        }
        if b & USER2 != 0 {
            n = n + 1;
        }
        n
    }

    /// Lower and upper bound on the remaining length; both are exact.
    pub fn size_hint(&self) -> (r: (usize, Option<usize>))
        ensures
            r.0 == self@.len(),
            r.1 == Some(r.0),
    {
        let n = self.len();
        (n, Some(n))
    }

    /// How many signals are still to come, consuming the iterator.
    pub fn count(self) -> (r: usize)
        ensures
            r == self@.len(),
    {
        self.len()
    }
}

// The bit of one signal, as a value.
fn bit_of(signal: Signal) -> (r: u8)
    ensures
        r == signal_bit(signal),
{
    match signal {
        Signal::Interrupt => INTERRUPT,
        Signal::Quit => QUIT,
        Signal::Terminate => TERMINATE,
        Signal::User1 => USER1,
        Signal::User2 => USER2,
    }
}

impl vstd::std_specs::ops::BitOrSpecImpl<SignalSet> for SignalSet {
    open spec fn obeys_bitor_spec() -> bool {
        true
    }

    open spec fn bitor_req(self, rhs: SignalSet) -> bool {
        true
    }

    closed spec fn bitor_spec(self, rhs: SignalSet) -> SignalSet {
        SignalSet { bits: self.bits | rhs.bits }
    }
}

impl core::ops::BitOr<SignalSet> for SignalSet {
    type Output = SignalSet;

    /// The union of the two sets.
    fn bitor(self, rhs: SignalSet) -> (r: SignalSet)
        ensures
            r@ == self@.union(rhs@),
    {
        proof {
            use_type_invariant(self);
            use_type_invariant(rhs);
            lemma_or_bits(self.bits, rhs.bits);
        }
        let r = SignalSet { bits: self.bits | rhs.bits };
        proof {
            assert forall|s: Signal| r@.contains(s) == (self@.contains(s) || rhs@.contains(s)) by {}
            assert(r@ =~= self@.union(rhs@));
        }
        r
    }
}

impl vstd::std_specs::ops::BitOrSpecImpl<Signal> for SignalSet {
    open spec fn obeys_bitor_spec() -> bool {
        true
    }

    open spec fn bitor_req(self, rhs: Signal) -> bool {
        true
    }

    closed spec fn bitor_spec(self, rhs: Signal) -> SignalSet {
        SignalSet { bits: self.bits | signal_bit(rhs) }
    }
}

impl core::ops::BitOr<Signal> for SignalSet {
    type Output = SignalSet;

    /// The set with `rhs` added.
    fn bitor(self, rhs: Signal) -> (r: SignalSet)
        ensures
            r@ == self@.insert(rhs),
    {
        let r = self | SignalSet::from(rhs);
        proof {
            assert(r@ =~= self@.insert(rhs));
        }
        r
    }
}

impl vstd::std_specs::ops::BitOrSpecImpl<Signal> for Signal {
    open spec fn obeys_bitor_spec() -> bool {
        true
    }

    open spec fn bitor_req(self, rhs: Signal) -> bool {
        true
    }

    closed spec fn bitor_spec(self, rhs: Signal) -> SignalSet {
        SignalSet { bits: signal_bit(self) | signal_bit(rhs) }
    }
}

impl core::ops::BitOr<Signal> for Signal {
    type Output = SignalSet;

    /// The set holding the two signals.
    fn bitor(self, rhs: Signal) -> (r: SignalSet)
        ensures
            r@ == set![self, rhs],
    {
        let r = SignalSet::from(self) | SignalSet::from(rhs);
        proof {
            assert(r@ =~= set![self, rhs]);
        }
        r
    }
}

impl vstd::std_specs::ops::BitOrSpecImpl<SignalSet> for Signal {
    open spec fn obeys_bitor_spec() -> bool {
        true
    }

    open spec fn bitor_req(self, rhs: SignalSet) -> bool {
        true
    }

    closed spec fn bitor_spec(self, rhs: SignalSet) -> SignalSet {
        SignalSet { bits: rhs.bits | signal_bit(self) }
    }
}

impl core::ops::BitOr<SignalSet> for Signal {
    type Output = SignalSet;

    /// The set with `self` added.
    fn bitor(self, rhs: SignalSet) -> (r: SignalSet)
        ensures
            r@ == rhs@.insert(self),
    {
        rhs | self
    }
}

/// Union of signal sets is commutative: `a | b == b | a`.
pub proof fn lemma_union_commutative(a: SignalSet, b: SignalSet)
    ensures
        a.bitor_spec(b) == b.bitor_spec(a),
{
    let x = a.bits;
    let y = b.bits;
    assert(x | y == y | x) by (bit_vector);
}

/// Union of signal sets is idempotent: `a | a == a`.
pub proof fn lemma_union_idempotent(a: SignalSet)
    ensures
        a.bitor_spec(a) == a,
{
    let x = a.bits;
    assert(x | x == x) by (bit_vector);
}

/// A set built from one signal holds that signal and nothing else.
pub proof fn lemma_from_singleton(signal: Signal)
    ensures
        SignalSet::spec_from(signal)@.contains(signal),
        SignalSet::spec_from(signal)@ == set![signal],
        SignalSet::spec_from(signal)@.len() == 1,
{
    lemma_bits_facts(signal_bit(signal));
    assert(SignalSet::spec_from(signal)@ =~= set![signal]);
    lemma_count_is_card(signal_bit(signal));
}

// What bitwise or does to every vocabulary bit.
proof fn lemma_or_bits(a: u8, b: u8)
    by (bit_vector)
    requires
        0 < a <= 31,
        0 < b <= 31,
    ensures
        0 < (a | b) <= 31,
        (a | b) & 1 != 0 <==> a & 1 != 0 || b & 1 != 0,
        (a | b) & 2 != 0 <==> a & 2 != 0 || b & 2 != 0,
        (a | b) & 4 != 0 <==> a & 4 != 0 || b & 4 != 0,
        (a | b) & 8 != 0 <==> a & 8 != 0 || b & 8 != 0,
        (a | b) & 16 != 0 <==> a & 16 != 0 || b & 16 != 0,
{
}

// What one step of clearing the lowest set bit does to every vocabulary bit.
proof fn lemma_clear_lowest(b: u8)
    by (bit_vector)
    requires
        b <= 31,
    ensures
        b & 1 != 0 ==> (b & 0xfe) <= 31 && (b & 0xfe) & 1 == 0 && (b & 0xfe) & 2 == b & 2 && (b
            & 0xfe) & 4 == b & 4 && (b & 0xfe) & 8 == b & 8 && (b & 0xfe) & 16 == b & 16,
        b & 2 != 0 ==> (b & 0xfd) <= 31 && (b & 0xfd) & 1 == b & 1 && (b & 0xfd) & 2 == 0 && (b
            & 0xfd) & 4 == b & 4 && (b & 0xfd) & 8 == b & 8 && (b & 0xfd) & 16 == b & 16,
        b & 4 != 0 ==> (b & 0xfb) <= 31 && (b & 0xfb) & 1 == b & 1 && (b & 0xfb) & 2 == b & 2 && (b
            & 0xfb) & 4 == 0 && (b & 0xfb) & 8 == b & 8 && (b & 0xfb) & 16 == b & 16,
        b & 8 != 0 ==> (b & 0xf7) <= 31 && (b & 0xf7) & 1 == b & 1 && (b & 0xf7) & 2 == b & 2 && (b
            & 0xf7) & 4 == b & 4 && (b & 0xf7) & 8 == 0 && (b & 0xf7) & 16 == b & 16,
        b & 16 != 0 ==> (b & 0xef) <= 31 && (b & 0xef) & 1 == b & 1 && (b & 0xef) & 2 == b & 2 && (b
            & 0xef) & 4 == b & 4 && (b & 0xef) & 8 == b & 8 && (b & 0xef) & 16 == 0,
{
}

// The vocabulary bits of the full byte, and that a bit equals itself under
// the masks used throughout this file.
proof fn lemma_bits_facts(b: u8)
    by (bit_vector)
    ensures
        b == 31 ==> b & 1 != 0 && b & 2 != 0 && b & 4 != 0 && b & 8 != 0 && b & 16 != 0,
        b == 1 ==> b & 1 != 0 && b & 2 == 0 && b & 4 == 0 && b & 8 == 0 && b & 16 == 0,
        b == 2 ==> b & 1 == 0 && b & 2 != 0 && b & 4 == 0 && b & 8 == 0 && b & 16 == 0,
        b == 4 ==> b & 1 == 0 && b & 2 == 0 && b & 4 != 0 && b & 8 == 0 && b & 16 == 0,
        b == 8 ==> b & 1 == 0 && b & 2 == 0 && b & 4 == 0 && b & 8 != 0 && b & 16 == 0,
        b == 16 ==> b & 1 == 0 && b & 2 == 0 && b & 4 == 0 && b & 8 == 0 && b & 16 != 0,
        0 < b <= 31 ==> b & 1 != 0 || b & 2 != 0 || b & 4 != 0 || b & 8 != 0 || b & 16 != 0,
{
}

// Containment of all of `b`'s bits in `a` is exactly bitwise subset.
proof fn lemma_subset_bits(a: u8, b: u8)
    by (bit_vector)
    requires
        b <= 31,
    ensures
        (a & b) == b <==> ((b & 1 != 0 ==> a & 1 != 0) && (b & 2 != 0 ==> a & 2 != 0) && (b & 4 != 0
            ==> a & 4 != 0) && (b & 8 != 0 ==> a & 8 != 0) && (b & 16 != 0 ==> a & 16 != 0)),
{
}

// The member sequence has exactly the members of the set, in order and
// without repetition.
proof fn lemma_seq_of_bits(bits: u8)
    ensures
        seq_of_bits(bits).to_set() == set_of_bits(bits),
        seq_of_bits(bits).no_duplicates(),
        seq_of_bits(bits).len() == count_bits(bits),
{
    let s = seq_of_bits(bits);
    assert forall|sig: Signal| #[trigger] s.contains(sig) implies set_of_bits(bits).contains(
        sig,
    ) by {
        let i = choose|i: int| 0 <= i < s.len() && s[i] == sig;
    }
    assert forall|sig: Signal| set_of_bits(bits).contains(sig) implies s.contains(sig) by {
        match sig {
            Signal::Interrupt => assert(s[0] == sig),
            Signal::Quit => {
                let i: int = if bits & INTERRUPT != 0 {
                    1
                } else {
                    0
                };
                assert(s[i] == sig);
            },
            Signal::Terminate => {
                let i = count_bits(bits & 3);
                assert(bits & 3 & 1 == bits & 1 && bits & 3 & 2 == bits & 2 && bits & 3 & 4 == 0
                    && bits & 3 & 8 == 0 && bits & 3 & 16 == 0) by (bit_vector);
                assert(s[i] == sig);
            },
            Signal::User1 => {
                let i = count_bits(bits & 7);
                assert(bits & 7 & 1 == bits & 1 && bits & 7 & 2 == bits & 2 && bits & 7 & 4 == bits
                    & 4 && bits & 7 & 8 == 0 && bits & 7 & 16 == 0) by (bit_vector);
                assert(s[i] == sig);
            },
            Signal::User2 => {
                let i = count_bits(bits & 15);
                assert(bits & 15 & 1 == bits & 1 && bits & 15 & 2 == bits & 2 && bits & 15 & 4
                    == bits & 4 && bits & 15 & 8 == bits & 8 && bits & 15 & 16 == 0) by (bit_vector);
                assert(s[i] == sig);
            },
        }
    }
    assert(s.to_set() =~= set_of_bits(bits));
    assert(s.len() == count_bits(bits));
    lemma_count_is_card(bits);
    s.lemma_no_dup_set_cardinality();
}

// The member count equals the cardinality of the member set.
proof fn lemma_count_is_card(bits: u8)
    ensures
        set_of_bits(bits).len() == count_bits(bits),
        set_of_bits(bits).finite(),
{
    broadcast use vstd::set::group_set_axioms;

    let s0 = Set::<Signal>::empty();
    let s1 = if bits & INTERRUPT != 0 {
        s0.insert(Signal::Interrupt)
    } else {
        s0
    };
    let s2 = if bits & QUIT != 0 {
        s1.insert(Signal::Quit)
    } else {
        s1
    };
    let s3 = if bits & TERMINATE != 0 {
        s2.insert(Signal::Terminate)
    } else {
        s2
    };
    let s4 = if bits & USER1 != 0 {
        s3.insert(Signal::User1)
    } else {
        s3
    };
    let s5 = if bits & USER2 != 0 {
        s4.insert(Signal::User2)
    } else {
        s4
    };
    assert(s5 =~= set_of_bits(bits));
    assert(s5.len() == count_bits(bits));
}

} // verus!
