//! Buffered output: small writes are gathered in a bounded buffer and sent to
//! the console in one piece; a write at least as large as the buffer goes
//! straight to the console.
//!
//! Whatever path a write takes, bytes reach the console in the order in which
//! they were submitted, and no byte is lost or sent twice.

use vstd::prelude::*;
use crate::device::ConsoleOutputHandle;
use crate::error::{ConsoleError, OsError, Side};

verus! {

/// Where the bytes of an output stream are: those the console has accepted,
/// and behind them those still waiting in the buffer.
pub struct OutputStream {
    pub written: Seq<u8>,
    pub buffered: Seq<u8>,
}

impl OutputStream {
    /// All bytes submitted so far, in submission order.
    pub open spec fn submitted(self) -> Seq<u8> {
        self.written + self.buffered
    }
}

/// Whether a write of `len` bytes stays in a buffer of `capacity` bytes that
/// already holds `held`: it must fit beside them, and be smaller than the
/// buffer itself.
pub open spec fn absorbs(held: nat, capacity: nat, len: nat) -> bool {
    held + len <= capacity && len < capacity
}

/// What a write of `data` does to a stream when the console accepts
/// everything it is offered.
pub open spec fn model_write(stream: OutputStream, capacity: nat, data: Seq<u8>) -> OutputStream {
    if absorbs(stream.buffered.len(), capacity, data.len()) {
        OutputStream { written: stream.written, buffered: stream.buffered + data }
    } else if data.len() >= capacity {
        OutputStream {
            written: stream.written + stream.buffered + data,
            buffered: Seq::<u8>::empty(),
        }
    } else {
        OutputStream { written: stream.written + stream.buffered, buffered: data }
    }
}

/// What a flush does to a stream when the console accepts everything it is
/// offered.
pub open spec fn model_flush(stream: OutputStream) -> OutputStream {
    OutputStream { written: stream.written + stream.buffered, buffered: Seq::<u8>::empty() }
}

/// The stream after one write for each element of `chunks`, in order.
pub open spec fn model_write_each(
    stream: OutputStream,
    capacity: nat,
    chunks: Seq<Seq<u8>>,
) -> OutputStream
    decreases chunks.len(),
{
    if chunks.len() == 0 {
        stream
    } else {
        model_write(model_write_each(stream, capacity, chunks.drop_last()), capacity, chunks.last())
    }
}

/// The elements of `chunks` joined end to end.
pub open spec fn concat(chunks: Seq<Seq<u8>>) -> Seq<u8>
    decreases chunks.len(),
{
    if chunks.len() == 0 {
        Seq::<u8>::empty()
    } else {
        concat(chunks.drop_last()) + chunks.last()
    }
}

/// A write never leaves more in the buffer than the buffer may hold.
pub proof fn lemma_write_stays_within_capacity(
    stream: OutputStream,
    capacity: nat,
    data: Seq<u8>,
)
    requires
        stream.buffered.len() <= capacity,
    ensures
        model_write(stream, capacity, data).buffered.len() <= capacity,
{
}

/// Writes reach the stream in the order in which they were submitted: after
/// any run of writes, what has been submitted is what was there before,
/// followed by the data of each write in turn.
pub proof fn lemma_writes_keep_order(stream: OutputStream, capacity: nat, chunks: Seq<Seq<u8>>)
    ensures
        model_write_each(stream, capacity, chunks).submitted() == stream.submitted() + concat(
            chunks,
        ),
    decreases chunks.len(),
{
    if chunks.len() == 0 {
        assert(stream.submitted() + concat(chunks) =~= stream.submitted());
    } else {
        let front = chunks.drop_last();
        lemma_writes_keep_order(stream, capacity, front);
        let mid = model_write_each(stream, capacity, front);
        assert(model_write(mid, capacity, chunks.last()).submitted() =~= mid.submitted()
            + chunks.last());
        assert(stream.submitted() + concat(front) + chunks.last() =~= stream.submitted() + concat(
            chunks,
        ));
    }
}

/// A run of writes, each smaller than the buffer and all fitting in it
/// together with what already waits, leaves the console untouched: every
/// byte waits in the buffer. The flush that follows hands the console what
/// waited before and then the writes, joined in submission order.
pub proof fn lemma_small_writes_wait_for_flush(
    stream: OutputStream,
    capacity: nat,
    chunks: Seq<Seq<u8>>,
)
    requires
        stream.buffered.len() + concat(chunks).len() <= capacity,
        forall|i: int| 0 <= i < chunks.len() ==> (#[trigger] chunks[i]).len() < capacity,
    ensures
        model_write_each(stream, capacity, chunks).written == stream.written,
        model_write_each(stream, capacity, chunks).buffered == stream.buffered + concat(chunks),
        model_flush(model_write_each(stream, capacity, chunks)).written == stream.written
            + stream.buffered + concat(chunks),
    decreases chunks.len(),
{
    if chunks.len() == 0 {
        assert(stream.buffered + concat(chunks) =~= stream.buffered);
    } else {
        let front = chunks.drop_last();
        assert forall|i: int| 0 <= i < front.len() implies (#[trigger] front[i]).len()
            < capacity by {
            assert(front[i] == chunks[i]);
        }
        lemma_small_writes_wait_for_flush(stream, capacity, front);
        let mid = model_write_each(stream, capacity, front);
        assert(chunks.last() == chunks[chunks.len() - 1]);
        assert(absorbs(mid.buffered.len(), capacity, chunks.last().len()));
        assert(mid.buffered + chunks.last() =~= stream.buffered + concat(chunks));
    }
    let end = model_write_each(stream, capacity, chunks);
    assert(end.written + end.buffered =~= stream.written + stream.buffered + concat(chunks));
}

/// A write at least as large as the buffer leaves nothing waiting: what
/// waited is flushed first and the data follows it to the console.
pub proof fn lemma_large_write_bypasses(stream: OutputStream, capacity: nat, data: Seq<u8>)
    requires
        data.len() >= capacity,
    ensures
        model_write(stream, capacity, data) == (OutputStream {
            written: stream.written + stream.buffered + data,
            buffered: Seq::<u8>::empty(),
        }),
{
}

/// A bounded buffer in front of a console output handle.
pub struct WriteBuffer {
    bytes: Vec<u8>,
    capacity: usize,
}

impl WriteBuffer {
    /// The bytes waiting to be sent, oldest first.
    pub closed spec fn buffered(&self) -> Seq<u8> {
        self.bytes@
    }

    /// The most bytes the buffer ever holds; fixed when the buffer is made.
    pub closed spec fn limit(&self) -> nat {
        self.capacity as nat
    }

    /// The buffer never holds more than its limit.
    pub open spec fn wf(&self) -> bool {
        self.buffered().len() <= self.limit()
    }

    /// The output stream made of what `device` has accepted and what waits here.
    pub open spec fn stream<O: ConsoleOutputHandle>(&self, device: &O) -> OutputStream {
        OutputStream { written: device.written()@, buffered: self.buffered() }
    }

    /// An empty buffer that will hold at most `capacity` bytes. Room for
    /// them is set aside at once where the allocator grants it; where it
    /// does not, the buffer grows as it fills.
    pub fn new(capacity: usize) -> (buffer: WriteBuffer)
        ensures
            buffer.wf(),
            buffer.buffered() == Seq::<u8>::empty(),
            buffer.limit() == capacity,
    {
        let mut bytes: Vec<u8> = Vec::new();
        let _ = bytes.try_reserve(capacity);
        WriteBuffer { bytes, capacity }
    }

    /// Submits `data` to the output stream and returns how many of its bytes
    /// were taken.
    ///
    /// A write that fits beside what already waits, and is smaller than the
    /// buffer, is kept and cannot fail; the console does not see it. A write
    /// that does not fit first flushes the buffer, and fails if the flush
    /// does. After that, data at least as large as the buffer is offered to
    /// the console directly, which may take only a front part of it; smaller
    /// data is kept.
    pub fn write<O: ConsoleOutputHandle>(&mut self, device: &mut O, data: &[u8]) -> (r: Result<
        usize,
        ConsoleError,
    >)
        requires
            old(self).wf(),
        ensures
            final(self).wf(),
            final(self).limit() == old(self).limit(),
            final(device).output_mode() == old(device).output_mode(),
            old(device).written()@.is_prefix_of(final(device).written()@),
            match r {
                Ok(count) => {
                    &&& count <= data@.len()
                    &&& final(self).stream(final(device)).submitted() == old(self).stream(
                        old(device),
                    ).submitted() + data@.take(count as int)
                    &&& count == data@.len() ==> final(self).stream(final(device)) == model_write(
                        old(self).stream(old(device)),
                        old(self).limit(),
                        data@,
                    )
                    &&& data@.len() >= old(self).limit() ==> final(self).buffered().len() == 0
                    &&& data@.len() < old(self).limit() ==> count == data@.len()
                },
                Err(e) => final(self).stream(final(device)).submitted() == old(self).stream(
                    old(device),
                ).submitted(),
            },
            // Data that is absorbed never reaches the console and never fails.
            absorbs(old(self).buffered().len(), old(self).limit(), data@.len()) ==> {
                &&& r == Ok::<usize, ConsoleError>(data@.len() as usize)
                &&& *final(device) == *old(device)
                &&& final(self).buffered() == old(self).buffered() + data@
            },
            // Data as large as an empty buffer goes to the console as it is.
            old(self).buffered().len() + data@.len() <= old(self).limit() && data@.len() >= old(
                self,
            ).limit() ==> exists|w: &mut O, offered: &[u8], sent: Result<usize, OsError>|
                {
                    &&& *w == *old(device)
                    &&& offered@ == data@
                    &&& #[trigger] call_ensures(O::write, (w, offered), sent)
                    &&& *final(w) == *final(device)
                    &&& final(self).buffered() == old(self).buffered()
                    &&& r == ConsoleError::of_transfer(Side::Output, sent)
                },
            // Data that does not fit waits for a flush; when the flush has
            // gone through, it is kept if it is smaller than the buffer and
            // goes to the console if it is not.
            old(self).buffered().len() + data@.len() > old(self).limit() ==> exists|
                b: &mut WriteBuffer,
                d: &mut O,
                flushed: Result<(), ConsoleError>,
            |
                {
                    &&& *b == *old(self)
                    &&& *d == *old(device)
                    &&& #[trigger] call_ensures(WriteBuffer::flush::<O>, (b, d), flushed)
                    &&& match flushed {
                        Err(e) => {
                            &&& *final(b) == *final(self)
                            &&& *final(d) == *final(device)
                            &&& r == Err::<usize, ConsoleError>(e)
                        },
                        Ok(_) => if data@.len() < old(self).limit() {
                            &&& *final(d) == *final(device)
                            &&& final(self).buffered() == data@
                            &&& r == Ok::<usize, ConsoleError>(data@.len() as usize)
                        } else {
                            exists|w: &mut O, offered: &[u8], sent: Result<usize, OsError>|
                                {
                                    &&& *w == *final(d)
                                    &&& offered@ == data@
                                    &&& #[trigger] call_ensures(O::write, (w, offered), sent)
                                    &&& *final(w) == *final(device)
                                    &&& final(self).buffered() == Seq::<u8>::empty()
                                    &&& r == ConsoleError::of_transfer(Side::Output, sent)
                                }
                        },
                    }
                },
    {
        let ghost before = self.stream(device);
        if data.len() > self.capacity - self.bytes.len() {
            match self.flush(device) {
                Ok(()) => {},
                Err(e) => {
                    return Err(e);
                },
            }
        }
        if data.len() >= self.capacity {
            assert(self.bytes@ =~= Seq::<u8>::empty());
            assert(device.written()@ =~= before.written + before.buffered);
            match device.write(data) {
                Ok(count) => {
                    assert(device.written()@ + self.bytes@ =~= before.submitted() + data@.take(
                        count as int,
                    ));
                    assert(count == data@.len() ==> data@.take(count as int) =~= data@);
                    Ok(count)
                },
                Err(e) => {
                    assert(device.written()@ + self.bytes@ =~= before.submitted());
                    Err(ConsoleError::Io(Side::Output, e))
                },
            }
        } else {
            let ghost held = self.bytes@;
            self.bytes.extend_from_slice(data);
            assert(self.bytes@ =~= held + data@);
            assert(data@.take(data@.len() as int) =~= data@);
            assert(device.written()@ + self.bytes@ =~= before.submitted() + data@);
            assert(held.len() == 0 ==> self.bytes@ =~= data@);
            Ok(data.len())
        }
    }

    /// Sends everything that waits in the buffer to `device` in one write,
    /// then flushes `device` itself, which happens even when nothing was
    /// waiting.
    ///
    /// If the write fails, the buffer is left as it was. If the console takes
    /// only a front part of what it is offered, that part leaves the buffer,
    /// the rest stays, and the flush fails with `ShortWrite` without flushing
    /// the console; a later flush offers the rest again.
    pub fn flush<O: ConsoleOutputHandle>(&mut self, device: &mut O) -> (r: Result<
        (),
        ConsoleError,
    >)
        requires
            old(self).wf(),
        ensures
            final(self).wf(),
            final(self).limit() == old(self).limit(),
            final(device).output_mode() == old(device).output_mode(),
            final(self).stream(final(device)).submitted() == old(self).stream(
                old(device),
            ).submitted(),
            old(device).written()@.is_prefix_of(final(device).written()@),
            r is Ok ==> final(self).stream(final(device)) == model_flush(
                old(self).stream(old(device)),
            ) && final(device).synced() == final(device).written()@.len(),
            // With nothing waiting, the console is flushed and that is all.
            old(self).buffered().len() == 0 ==> exists|f: &mut O, done: Result<(), OsError>|
                {
                    &&& *f == *old(device)
                    &&& #[trigger] call_ensures(O::flush, (f,), done)
                    &&& *final(f) == *final(device)
                    &&& final(self).buffered() == old(self).buffered()
                    &&& ConsoleError::reports_io_call(r, Side::Output, done)
                },
            // Otherwise what waits is offered to the console once, and the
            // console is flushed if it took everything.
            old(self).buffered().len() > 0 ==> exists|
                w: &mut O,
                data: &[u8],
                sent: Result<usize, OsError>,
            |
                {
                    &&& *w == *old(device)
                    &&& data@ == old(self).buffered()
                    &&& #[trigger] call_ensures(O::write, (w, data), sent)
                    &&& match sent {
                        Err(code) => {
                            &&& *final(w) == *final(device)
                            &&& final(self).buffered() == old(self).buffered()
                            &&& r == Err::<(), ConsoleError>(ConsoleError::Io(Side::Output, code))
                        },
                        Ok(count) => if count < old(self).buffered().len() {
                            &&& *final(w) == *final(device)
                            &&& final(self).buffered() == old(self).buffered().skip(count as int)
                            &&& r == Err::<(), ConsoleError>(ConsoleError::ShortWrite)
                        } else {
                            exists|f: &mut O, done: Result<(), OsError>|
                                {
                                    &&& *f == *final(w)
                                    &&& #[trigger] call_ensures(O::flush, (f,), done)
                                    &&& *final(f) == *final(device)
                                    &&& final(self).buffered() == Seq::<u8>::empty()
                                    &&& ConsoleError::reports_io_call(r, Side::Output, done)
                                }
                        },
                    }
                },
    {
        if self.bytes.len() > 0 {
            match device.write(self.bytes.as_slice()) {
                Ok(count) => {
                    if count < self.bytes.len() {
                        self.bytes = self.bytes.split_off(count);
                        assert(self.bytes@ =~= old(self).bytes@.skip(count as int));
                        assert(device.written()@ + self.bytes@ =~= old(device).written()@ + old(
                            self,
                        ).bytes@);
                        return Err(ConsoleError::ShortWrite);
                    }
                    assert(old(self).bytes@.take(count as int) =~= old(self).bytes@);
                    self.bytes.clear();
                },
                Err(e) => {
                    return Err(ConsoleError::Io(Side::Output, e));
                },
            }
        }
        assert(self.bytes@ =~= Seq::<u8>::empty());
        assert(device.written()@ =~= old(device).written()@ + old(self).bytes@);
        assert(device.written()@ + self.bytes@ =~= old(device).written()@ + old(self).bytes@);
        match device.flush() {
            Ok(()) => Ok(()),
            Err(e) => Err(ConsoleError::Io(Side::Output, e)),
        }
    }

    /// How many bytes wait in the buffer.
    pub fn len(&self) -> (n: usize)
        ensures
            n == self.buffered().len(),
    {
        self.bytes.len()
    }

    /// Whether nothing waits in the buffer.
    pub fn is_empty(&self) -> (b: bool)
        ensures
            b == (self.buffered().len() == 0),
    {
        self.bytes.len() == 0
    }

    /// The most bytes the buffer ever holds.
    pub fn capacity(&self) -> (n: usize)
        ensures
            n == self.limit(),
    {
        self.capacity
    }

    /// The bytes that wait in the buffer, oldest first.
    pub fn as_slice(&self) -> (bytes: &[u8])
        ensures
            bytes@ == self.buffered(),
    {
        self.bytes.as_slice()
    }
}

} // verus!
