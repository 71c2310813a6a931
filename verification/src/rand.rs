//! A random number generator that replays a caller-supplied byte buffer.
//!
//! On the same input it yields the same output, as long as its methods are
//! called in the same order and with the same arguments.

use vstd::endian::{endianness, Endian};
use vstd::prelude::*;
use vstd::slice::slice_subrange;

verus! {

/// The bytes that a request for `n` bytes receives from a source that still
/// holds `src`: the first bytes of `src`, then zeroes once `src` runs out.
pub open spec fn replayed(src: Seq<u8>, n: nat) -> Seq<u8> {
    Seq::new(n, |i: int| if i < src.len() { src[i] } else { 0u8 })
}

/// What is left of `src` after `n` bytes were requested from it.
pub open spec fn leftover(src: Seq<u8>, n: nat) -> Seq<u8> {
    if n <= src.len() {
        src.skip(n as int)
    } else {
        Seq::empty()
    }
}

/// The integer that `bytes` write in base 256 in the given byte order: with
/// the least significant byte first, or with the most significant one first.
pub open spec fn int_of_bytes(order: Endian, bytes: Seq<u8>) -> nat
    decreases bytes.len(),
{
    if bytes.len() == 0 {
        0
    } else {
        match order {
            Endian::Little => bytes[0] as nat + 256 * int_of_bytes(order, bytes.drop_first()),
            Endian::Big => int_of_bytes(order, bytes.drop_last()) * 256 + bytes.last() as nat,
        }
    }
}

/// A random number generator that uses a byte buffer as the source of its
/// randomness.
pub struct FuzzRng<'a> {
    buf: &'a [u8],
}

impl<'a> View for FuzzRng<'a> {
    type V = Seq<u8>;

    /// The bytes that have not been handed out yet.
    closed spec fn view(&self) -> Seq<u8> {
        self.buf@
    }
}

impl<'a> FuzzRng<'a> {
    /// Creates a new `FuzzRng` from `buf`, which should be part or all of an
    /// input buffer provided by a fuzzing library.
    pub fn new(buf: &'a [u8]) -> (rng: FuzzRng<'a>)
        ensures
            rng@ == buf@,
    {
        FuzzRng { buf }
    }

    /// Number of bytes that have not been handed out yet.
    pub fn remaining(&self) -> (n: usize)
        ensures
            n == self@.len(),
    {
        self.buf.len()
    }

    /// Fills `dest` from the buffer and consumes what was copied. When the
    /// buffer holds fewer bytes than `dest`, the rest of `dest` is zeroed.
    pub fn fill_bytes(&mut self, dest: &mut [u8])
        ensures
            final(dest)@ == replayed(old(self)@, old(dest)@.len()),
            final(self)@ == leftover(old(self)@, old(dest)@.len()),
    {
        let have: usize = self.buf.len();
        let want: usize = dest.len();
        let amt: usize = if have < want { have } else { want };
        let mut i: usize = 0;
        while i < want
            invariant
                i <= want,
                want == dest@.len(),
                want == old(dest)@.len(),
                self.buf@ == old(self)@,
                have == self.buf@.len(),
                amt == if have < want { have } else { want },
                forall|j: int| 0 <= j < i ==> dest@[j] == replayed(old(self)@, want as nat)[j],
            decreases want - i,
        {
            if i < amt {
                dest[i] = self.buf[i];
            } else {
                dest[i] = 0;
            }
            i = i + 1;
        }
        self.buf = slice_subrange(self.buf, amt, have);
    }

    /// Fills `dest` from the buffer if the buffer holds enough bytes for all
    /// of it, and fails without touching anything otherwise.
    pub fn try_fill_bytes(&mut self, dest: &mut [u8]) -> (r: Result<(), rand_core::Error>)
        ensures
            r is Ok <==> old(dest)@.len() <= old(self)@.len(),
            r is Ok ==> final(dest)@ == old(self)@.take(old(dest)@.len() as int),
            r is Ok ==> final(self)@ == old(self)@.skip(old(dest)@.len() as int),
            r is Err ==> final(dest)@ == old(dest)@ && final(self)@ == old(self)@,
    {
        if self.buf.len() >= dest.len() {
            self.fill_bytes(dest);
            Ok(())
        } else {
            Err(not_enough_data())
        }
    }

    /// The next four bytes of the buffer as an integer in the byte order of
    /// the machine; missing bytes count as zero.
    pub fn next_u32(&mut self) -> (x: u32)
        ensures
            x == int_of_bytes(endianness(), replayed(old(self)@, 4)),
            final(self)@ == leftover(old(self)@, 4),
    {
        let mut buf = [0u8; 4];
        self.fill_bytes(&mut buf);
        u32_from_ne_bytes(buf)
    }

    /// The next eight bytes of the buffer as an integer in the byte order of
    /// the machine; missing bytes count as zero.
    pub fn next_u64(&mut self) -> (x: u64)
        ensures
            x == int_of_bytes(endianness(), replayed(old(self)@, 8)),
            final(self)@ == leftover(old(self)@, 8),
    {
        let mut buf = [0u8; 8];
        self.fill_bytes(&mut buf);
        u64_from_ne_bytes(buf)
    }
}

/// An exhausted generator yields zero: whatever the byte order, `n` bytes
/// requested from an empty buffer read as the integer 0.
pub proof fn lemma_exhausted_reads_zero(order: Endian, n: nat)
    ensures
        int_of_bytes(order, replayed(Seq::empty(), n)) == 0,
    decreases n,
{
    let zeros = replayed(Seq::empty(), n);
    if n > 0 {
        lemma_exhausted_reads_zero(order, (n - 1) as nat);
        assert(zeros.drop_first() =~= replayed(Seq::empty(), (n - 1) as nat));
        assert(zeros.drop_last() =~= replayed(Seq::empty(), (n - 1) as nat));
    }
}

/// A buffer that holds at least `n` bytes hands out exactly its first `n`
/// bytes and keeps the rest.
pub proof fn lemma_replay_within_buffer(src: Seq<u8>, n: nat)
    requires
        n <= src.len(),
    ensures
        replayed(src, n) == src.take(n as int),
        replayed(src, n) + leftover(src, n) == src,
{
    assert(replayed(src, n) =~= src.take(n as int));
    assert(src.take(n as int) + src.skip(n as int) =~= src);
}

/// `rand_core::Error::new` with the kind `Unavailable` and a fixed message.
/// The error is opaque here, so nothing is claimed of it.
#[verifier::external_body]
fn not_enough_data() -> (error: rand_core::Error) {
    rand_core::Error::new(rand_core::ErrorKind::Unavailable, "not enough data in fuzzer input")
}

/// `u32::from_ne_bytes`: the integer whose memory representation on this
/// machine is `bytes`, that is, `bytes` read in the machine's byte order.
#[verifier::external_body]
fn u32_from_ne_bytes(bytes: [u8; 4]) -> (x: u32)
    ensures
        x == int_of_bytes(endianness(), bytes@),
{
    u32::from_ne_bytes(bytes)
}

/// `u64::from_ne_bytes`: the integer whose memory representation on this
/// machine is `bytes`, that is, `bytes` read in the machine's byte order.
#[verifier::external_body]
fn u64_from_ne_bytes(bytes: [u8; 8]) -> (x: u64)
    ensures
        x == int_of_bytes(endianness(), bytes@),
{
    u64::from_ne_bytes(bytes)
}

#[verifier::external_type_specification]
#[verifier::external_body]
pub struct ExRngError(rand_core::Error);

} // verus!
