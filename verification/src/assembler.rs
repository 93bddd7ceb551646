//! Serial line assembler: turns an asynchronous byte stream into discrete,
//! newline-terminated command lines under fixed memory bounds.
//!
//! Two bounded buffers are involved. A small receive queue is the only
//! structure the receive interrupt may touch: a byte is appended when there
//! is room and silently dropped otherwise, so the interrupt never blocks.
//! The foreground loop drains the queue into a larger line buffer and takes
//! complete lines off its front. A line that would not fit in the line
//! buffer is discarded as a whole, so an overlong line never corrupts the
//! parsing of the lines that follow it.

use vstd::prelude::*;

use crate::scan::contains_byte;
use crate::scan::find_byte_in;
use crate::scan::rfind_byte_in;

verus! {

/// Capacity of the receive queue filled from interrupt context.
pub const RX_QUEUE_CAPACITY: usize = 32;

/// Capacity of the line buffer drained by the foreground loop.
pub const LINE_CAPACITY: usize = 512;

/// The line terminator.
pub const NEWLINE: u8 = '\n' as u8;

#[verifier::external_type_specification]
#[verifier::external_body]
#[verifier::reject_recursive_types(T)]
pub struct ExArrayVec<T, const CAP: usize>(arrayvec::ArrayVec<T, CAP>);

/// The bytes currently held by the receive queue, oldest first.
pub uninterp spec fn queue_bytes(q: arrayvec::ArrayVec<u8, RX_QUEUE_CAPACITY>) -> Seq<u8>;

/// The bytes currently held by the line buffer, oldest first.
pub uninterp spec fn line_buffer_bytes(b: arrayvec::ArrayVec<u8, LINE_CAPACITY>) -> Seq<u8>;

/// Relies on arrayvec's ArrayVec::new: a freshly created vector is empty.
#[verifier::external_body]
fn rx_new() -> (q: arrayvec::ArrayVec<u8, RX_QUEUE_CAPACITY>)
    ensures
        queue_bytes(q) == Seq::<u8>::empty(),
{
    arrayvec::ArrayVec::new()
}

/// Relies on arrayvec's ArrayVec::try_push: appends the byte when the vector
/// is below its capacity and reports an error otherwise, changing nothing.
#[verifier::external_body]
fn rx_try_push(q: &mut arrayvec::ArrayVec<u8, RX_QUEUE_CAPACITY>, b: u8) -> (r: bool)
    ensures
        r == (queue_bytes(*old(q)).len() < RX_QUEUE_CAPACITY),
        r ==> queue_bytes(*final(q)) == queue_bytes(*old(q)).push(b),
        !r ==> queue_bytes(*final(q)) == queue_bytes(*old(q)),
{
    q.try_push(b).is_ok()
}

/// Relies on arrayvec's ArrayVec::as_slice: exposes the stored elements in
/// order as one slice.
#[verifier::external_body]
fn rx_as_slice(q: &arrayvec::ArrayVec<u8, RX_QUEUE_CAPACITY>) -> (r: &[u8])
    ensures
        r@ == queue_bytes(*q),
{
    q.as_slice()
}

/// Relies on arrayvec's ArrayVec::clear: removes all elements.
#[verifier::external_body]
fn rx_clear(q: &mut arrayvec::ArrayVec<u8, RX_QUEUE_CAPACITY>)
    ensures
        queue_bytes(*final(q)) == Seq::<u8>::empty(),
{
    q.clear()
}

/// Relies on arrayvec's ArrayVec::new: a freshly created vector is empty.
#[verifier::external_body]
fn lb_new() -> (b: arrayvec::ArrayVec<u8, LINE_CAPACITY>)
    ensures
        line_buffer_bytes(b) == Seq::<u8>::empty(),
{
    arrayvec::ArrayVec::new()
}

/// Relies on arrayvec's ArrayVec::try_push: appends the byte when the vector
/// is below its capacity and reports an error otherwise, changing nothing.
#[verifier::external_body]
fn lb_try_push(b: &mut arrayvec::ArrayVec<u8, LINE_CAPACITY>, v: u8) -> (r: bool)
    ensures
        r == (line_buffer_bytes(*old(b)).len() < LINE_CAPACITY),
        r ==> line_buffer_bytes(*final(b)) == line_buffer_bytes(*old(b)).push(v),
        !r ==> line_buffer_bytes(*final(b)) == line_buffer_bytes(*old(b)),
{
    b.try_push(v).is_ok()
}

/// Relies on arrayvec's ArrayVec::as_slice: exposes the stored elements in
/// order as one slice.
#[verifier::external_body]
fn lb_as_slice(b: &arrayvec::ArrayVec<u8, LINE_CAPACITY>) -> (r: &[u8])
    ensures
        r@ == line_buffer_bytes(*b),
{
    b.as_slice()
}

/// Relies on arrayvec's ArrayVec::truncate: keeps the first `new_len`
/// elements and drops the rest; does nothing when `new_len` exceeds the
/// current length.
#[verifier::external_body]
fn lb_truncate(b: &mut arrayvec::ArrayVec<u8, LINE_CAPACITY>, new_len: usize)
    ensures
        line_buffer_bytes(*final(b)) == if new_len <= line_buffer_bytes(*old(b)).len() {
            line_buffer_bytes(*old(b)).take(new_len as int)
        } else {
            line_buffer_bytes(*old(b))
        },
{
    b.truncate(new_len)
}

/// Relies on arrayvec's ArrayVec::drain: removes the given range from the
/// vector; the elements after it move to the front.
#[verifier::external_body]
fn lb_drop_prefix(b: &mut arrayvec::ArrayVec<u8, LINE_CAPACITY>, n: usize)
    requires
        n <= line_buffer_bytes(*old(b)).len(),
    ensures
        line_buffer_bytes(*final(b)) == line_buffer_bytes(*old(b)).skip(n as int),
{
    b.drain(0..n);
}

/// The bounded queue shared between the receive interrupt (producer) and the
/// foreground loop (consumer). All access must happen inside a critical
/// section, which the caller provides.
pub struct RxQueue {
    queue: arrayvec::ArrayVec<u8, RX_QUEUE_CAPACITY>,
}

impl View for RxQueue {
    type V = Seq<u8>;

    /// The queued bytes, oldest first.
    closed spec fn view(&self) -> Seq<u8> {
        queue_bytes(self.queue)
    }
}

impl RxQueue {
    /// Creates an empty queue.
    pub fn new() -> (q: RxQueue)
        ensures
            q@ == Seq::<u8>::empty(),
    {
        RxQueue { queue: rx_new() }
    }

    /// Called from the receive interrupt for each received byte: the byte is
    /// appended when there is room and silently dropped otherwise, so the
    /// interrupt never blocks and never overwrites earlier bytes.
    pub fn push_byte(&mut self, b: u8) -> (accepted: bool)
        ensures
            accepted == (old(self)@.len() < RX_QUEUE_CAPACITY),
            accepted ==> final(self)@ == old(self)@.push(b),
            !accepted ==> final(self)@ == old(self)@,
    {
        rx_try_push(&mut self.queue, b)
    }

    /// Called by the foreground loop inside a critical section: moves every
    /// queued byte, in arrival order, into the line assembler and empties the
    /// queue. The work is one bounded copy loop, so the critical section
    /// stays short.
    pub fn drain_into(&mut self, assembler: &mut LineAssembler)
        ensures
            final(self)@ == Seq::<u8>::empty(),
            (final(assembler).pending(), final(assembler).is_discarding()) == feed_all(
                old(assembler).pending(),
                old(assembler).is_discarding(),
                old(self)@,
            ),
    {
        let bytes = rx_as_slice(&self.queue);
        assembler.feed(bytes);
        rx_clear(&mut self.queue);
    }
}

/// The contents of the line buffer after an overflow: the complete lines
/// already buffered are kept, the partial line at the end is dropped.
pub open spec fn kept_on_overflow(pending: Seq<u8>) -> Seq<u8> {
    match pending.index_of_last(NEWLINE) {
        Some(i) => pending.take(i + 1),
        None => Seq::empty(),
    }
}

/// One step of the assembler: how feeding one byte changes the pending bytes
/// and the discarding flag.
///
/// While discarding, every byte up to and including the next newline is
/// dropped. Otherwise the byte is appended when it fits; when it does not,
/// the partial line at the end of the buffer is dropped as a whole and the
/// rest of the overlong line is discarded.
pub open spec fn feed_step(pending: Seq<u8>, discarding: bool, b: u8) -> (Seq<u8>, bool) {
    if discarding {
        (pending, b != NEWLINE)
    } else if pending.len() < LINE_CAPACITY {
        (pending.push(b), false)
    } else {
        (kept_on_overflow(pending), b != NEWLINE)
    }
}

/// [`feed_step`] folded over a byte sequence, oldest byte first.
pub open spec fn feed_all(pending: Seq<u8>, discarding: bool, bytes: Seq<u8>) -> (Seq<u8>, bool)
    decreases bytes.len(),
{
    if bytes.len() == 0 {
        (pending, discarding)
    } else {
        let prev = feed_all(pending, discarding, bytes.drop_last());
        feed_step(prev.0, prev.1, bytes.last())
    }
}

/// Accumulates received bytes and hands out one newline-terminated line at a
/// time. Lines longer than [`LINE_CAPACITY`] are discarded as a whole.
pub struct LineAssembler {
    buffer: arrayvec::ArrayVec<u8, LINE_CAPACITY>,
    discarding: bool,
}

impl LineAssembler {
    /// The buffered bytes that still await a newline or extraction.
    pub closed spec fn pending(&self) -> Seq<u8> {
        line_buffer_bytes(self.buffer)
    }

    /// Whether the assembler is currently skipping the rest of an overlong
    /// line.
    pub closed spec fn is_discarding(&self) -> bool {
        self.discarding
    }

    /// Creates an empty assembler.
    pub fn new() -> (a: LineAssembler)
        ensures
            a.pending() == Seq::<u8>::empty(),
            !a.is_discarding(),
    {
        LineAssembler { buffer: lb_new(), discarding: false }
    }

    /// Feeds one received byte, as described by [`feed_step`].
    pub fn feed_byte(&mut self, b: u8)
        ensures
            (final(self).pending(), final(self).is_discarding()) == feed_step(
                old(self).pending(),
                old(self).is_discarding(),
                b,
            ),
    {
        if self.discarding {
            if b == NEWLINE {
                self.discarding = false;
            }
        } else {
            if !lb_try_push(&mut self.buffer, b) {
                let keep = {
                    let s = lb_as_slice(&self.buffer);
                    match rfind_byte_in(s, s.len(), NEWLINE) {
                        Some(i) => i + 1,
                        None => 0,
                    }
                };
                proof {
                    self.pending().index_of_last_ensures(NEWLINE);
                }
                lb_truncate(&mut self.buffer, keep);
                self.discarding = b != NEWLINE;
                assert(self.pending() =~= kept_on_overflow(old(self).pending()));
            }
        }
    }

    /// Feeds a batch of received bytes, oldest first.
    pub fn feed(&mut self, bytes: &[u8])
        ensures
            (final(self).pending(), final(self).is_discarding()) == feed_all(
                old(self).pending(),
                old(self).is_discarding(),
                bytes@,
            ),
    {
        let mut i: usize = 0;
        while i < bytes.len()
            invariant
                i <= bytes@.len(),
                (self.pending(), self.is_discarding()) == feed_all(
                    old(self).pending(),
                    old(self).is_discarding(),
                    bytes@.take(i as int),
                ),
            decreases bytes@.len() - i,
        {
            proof {
                assert(bytes@.take(i + 1).drop_last() =~= bytes@.take(i as int));
                assert(bytes@.take(i + 1).last() == bytes@[i as int]);
            }
            self.feed_byte(bytes[i]);
            i += 1;
        }
        proof {
            assert(bytes@.take(bytes@.len() as int) =~= bytes@);
        }
    }

    /// Removes and returns the oldest complete line, terminator included,
    /// when the buffer holds one.
    pub fn next_line(&mut self) -> (r: Option<Vec<u8>>)
        ensures
            final(self).is_discarding() == old(self).is_discarding(),
            match r {
                Some(line) => {
                    &&& contains_byte(old(self).pending(), NEWLINE)
                    &&& {
                        let i = old(self).pending().index_of_first(NEWLINE).unwrap();
                        &&& line@ == old(self).pending().take(i + 1)
                        &&& final(self).pending() == old(self).pending().skip(i + 1)
                    }
                },
                None => {
                    &&& !contains_byte(old(self).pending(), NEWLINE)
                    &&& final(self).pending() == old(self).pending()
                },
            },
    {
        proof {
            self.pending().index_of_last_ensures(NEWLINE);
            self.pending().index_of_first_ensures(NEWLINE);
        }
        let found = {
            let s = lb_as_slice(&self.buffer);
            find_byte_in(s, 0, s.len(), NEWLINE)
        };
        match found {
            Some(i) => {
                let line = {
                    let s = lb_as_slice(&self.buffer);
                    vstd::slice::slice_to_vec(vstd::slice::slice_subrange(s, 0, i + 1))
                };
                lb_drop_prefix(&mut self.buffer, i + 1);
                Some(line)
            },
            None => None,
        }
    }
}

/// Law: while the line buffer has room and nothing is being discarded,
/// feeding loses no byte and keeps arrival order — the pending bytes are
/// exactly the old pending bytes followed by the fed ones. Together with
/// [`LineAssembler::next_line`], a newline for one line is never merged
/// with the bytes of the next.
pub proof fn lemma_feed_keeps_bytes_within_capacity(pending: Seq<u8>, bytes: Seq<u8>)
    requires
        pending.len() + bytes.len() <= LINE_CAPACITY,
    ensures
        feed_all(pending, false, bytes) == (pending + bytes, false),
    decreases bytes.len(),
{
    if bytes.len() == 0 {
        assert(pending + bytes =~= pending);
    } else {
        lemma_feed_keeps_bytes_within_capacity(pending, bytes.drop_last());
        assert((pending + bytes.drop_last()).push(bytes.last()) =~= pending + bytes);
    }
}

} // verus!
