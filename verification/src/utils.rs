//! Checksum and time helpers shared by the codec and the payloads.

use vstd::prelude::*;

verus! {

/// XOR of all bytes of `s`, folded from the left; `0` for the empty sequence.
pub open spec fn xor_fold(s: Seq<u8>) -> u8
    decreases s.len(),
{
    if s.len() == 0 {
        0u8
    } else {
        xor_fold(s.drop_last()) ^ s.last()
    }
}

/// Appending one byte to a sequence XORs that byte into the fold.
pub proof fn lemma_xor_fold_push(s: Seq<u8>, b: u8)
    ensures
        xor_fold(s.push(b)) == xor_fold(s) ^ b,
{
    assert(s.push(b).drop_last() =~= s);
}

/// XOR checksum of the first `len` bytes of `buf`.
pub fn xor_checksum(buf: &[u8], len: usize) -> (result: u8)
    requires
        len <= buf@.len(),
    ensures
        result == xor_fold(buf@.take(len as int)),
{
    let mut result: u8 = 0x00;
    let mut i: usize = 0;
    while i < len
        invariant
            i <= len <= buf@.len(),
            result == xor_fold(buf@.take(i as int)),
        decreases len - i,
    {
        proof {
            assert(buf@.take(i + 1).drop_last() =~= buf@.take(i as int));
        }
        result = result ^ buf[i];
        i = i + 1;
    }
    result
}

/// A span of time in whole seconds.
#[derive(Debug, Clone, Copy, PartialEq, Eq, Structural)]
pub struct TimeSpan {
    pub secs: u64,
}

impl TimeSpan {
    /// The span of `secs` seconds.
    pub fn from_secs(secs: u64) -> (span: Self)
        ensures
            span.secs == secs,
    {
        TimeSpan { secs }
    }

    /// The whole seconds of the span.
    pub fn as_secs(&self) -> (secs: u64)
        ensures
            secs == self.secs,
    {
        self.secs
    }
}

/// Minutes and hours of a span of time, as timers on the bus count them.
pub trait DurationUtils: Sized {
    /// The whole seconds of the span.
    spec fn seconds(&self) -> nat;

    /// The span of `value` minutes.
    fn from_minutes(value: u64) -> (span: Self)
        requires
            value * 60 <= u64::MAX,
        ensures
            span.seconds() == value * 60,
    ;

    /// The whole minutes of the span.
    fn as_minutes(&self) -> (minutes: u64)
        ensures
            minutes == self.seconds() / 60,
    ;

    /// The whole minutes of the span beyond its whole hours: `0` to `59`.
    fn as_section_minutes(&self) -> (minutes: u64)
        ensures
            minutes == self.seconds() % 3600 / 60,
    ;

    /// The whole hours of the span.
    fn as_hours(&self) -> (hours: u64)
        ensures
            hours == self.seconds() / 3600,
    ;
}

impl DurationUtils for TimeSpan {
    open spec fn seconds(&self) -> nat {
        self.secs as nat
    }

    fn from_minutes(value: u64) -> (span: Self) {
        TimeSpan { secs: value * 60 }
    }

    fn as_minutes(&self) -> (minutes: u64) {
        self.secs / 60
    }

    fn as_section_minutes(&self) -> (minutes: u64) {
        self.secs % 3600 / 60
    }

    fn as_hours(&self) -> (hours: u64) {
        self.secs / 3600
    }
}

/// Appends the bytes of `tail` to `v`.
pub fn append_bytes(v: &mut Vec<u8>, tail: &[u8])
    ensures
        final(v)@ == old(v)@ + tail@,
{
    let ghost before = v@;
    let mut i: usize = 0;
    while i < tail.len()
        invariant
            i <= tail@.len(),
            v@ == before + tail@.take(i as int),
        decreases tail@.len() - i,
    {
        v.push(tail[i]);
        i = i + 1;
        assert(v@ =~= before + tail@.take(i as int));
    }
    assert(tail@.take(tail@.len() as int) =~= tail@);
}

/// A copy of the bytes of `buf` from index `from` up to, not including, `to`.
pub fn copy_range(buf: &[u8], from: usize, to: usize) -> (v: Vec<u8>)
    requires
        from <= to <= buf@.len(),
    ensures
        v@ == buf@.subrange(from as int, to as int),
{
    let mut v: Vec<u8> = Vec::new();
    let mut i: usize = from;
    while i < to
        invariant
            from <= i <= to <= buf@.len(),
            v@ == buf@.subrange(from as int, i as int),
        decreases to - i,
    {
        v.push(buf[i]);
        i = i + 1;
        assert(v@ =~= buf@.subrange(from as int, i as int));
    }
    v
}

} // verus!
