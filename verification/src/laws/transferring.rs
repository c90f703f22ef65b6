//! What holds of the transfer of whole buffers.

use vstd::prelude::*;

use crate::error::Error;
use crate::stream::Transfer;
use crate::sys::Direction;

verus! {

impl Transfer {
    /// What comes after system calls that moved so many bytes each.
    pub open spec fn run(self, counts: Seq<usize>) -> Transfer
        decreases counts.len(),
    {
        if counts.len() == 0 {
            self
        } else {
            self.next(Ok(counts[0])).run(counts.drop_first())
        }
    }

    /// The counts are such as system calls return: none is greater than what was left to be moved,
    /// and none comes after the end.
    pub open spec fn fits(self, counts: Seq<usize>) -> bool
        decreases counts.len(),
    {
        counts.len() == 0 || (self is Moving && counts[0] <= self.left() && self.next(
            Ok(counts[0]),
        ).fits(counts.drop_first()))
    }

    /// How many bytes of the buffer have been moved.
    pub open spec fn position(self) -> int {
        match self {
            Transfer::Moving { socket, direction, moved, len } => moved as int,
            Transfer::Done(Ok(len)) => len as int,
            Transfer::Done(Err(_)) => 0,
        }
    }

    /// The bytes of `buf` that system calls moved, in the order in which they did: each takes so
    /// many from where the last one stopped.
    pub open spec fn sent(self, buf: Seq<u8>, counts: Seq<usize>) -> Seq<u8>
        decreases counts.len(),
    {
        if counts.len() == 0 {
            Seq::empty()
        } else {
            buf.subrange(self.position(), self.position() + counts[0]) + self.next(
                Ok(counts[0]),
            ).sent(buf, counts.drop_first())
        }
    }

    /// The buffer after system calls each of which put a chunk where the last one stopped.
    pub open spec fn filled(self, buf: Seq<u8>, chunks: Seq<Seq<u8>>) -> Seq<u8>
        decreases chunks.len(),
    {
        if chunks.len() == 0 {
            buf
        } else {
            let count = chunks[0].len() as usize;
            self.next(Ok(count)).filled(
                placed(buf, self.position(), chunks[0]),
                chunks.drop_first(),
            )
        }
    }
}

/// The buffer with the chunk in place of as many bytes from `start` on.
pub open spec fn placed(buf: Seq<u8>, start: int, chunk: Seq<u8>) -> Seq<u8> {
    buf.take(start) + chunk + buf.skip(start + chunk.len())
}

/// The lengths of the chunks.
pub open spec fn lengths(chunks: Seq<Seq<u8>>) -> Seq<usize> {
    Seq::new(chunks.len(), |i: int| chunks[i].len() as usize)
}

proof fn lemma_sent(state: Transfer, buf: Seq<u8>, counts: Seq<usize>)
    requires
        state.wf(),
        state.fits(counts),
        state !is Done || state is Done && state->Done_0 is Ok,
        state.position() + state.left() == buf.len(),
    ensures
        state.sent(buf, counts) == buf.subrange(
            state.position(),
            state.run(counts).position(),
        ),
        state.position() <= state.run(counts).position() <= buf.len(),
        state.run(counts).wf(),
        state.run(counts).position() + state.run(counts).left() == buf.len(),
        state.run(counts) matches Transfer::Done(result) ==> result == Ok::<usize, Error>(
            buf.len() as usize,
        ),
    decreases counts.len(),
{
    if counts.len() != 0 {
        let next = state.next(Ok(counts[0]));
        lemma_sent(next, buf, counts.drop_first());
        assert(next.position() == state.position() + counts[0]);
        assert(state.sent(buf, counts) =~= buf.subrange(
            state.position(),
            state.run(counts).position(),
        ));
    }
}

/// At any time, what a transfer has sent is the beginning of the buffer, each byte once and in its
/// place. Once it is done, that is the whole buffer, and the transfer says how long it is.
pub proof fn law_write_all_sends_everything(socket: i32, buf: Seq<u8>, counts: Seq<usize>)
    requires
        buf.len() <= usize::MAX,
        Transfer::at(socket, Direction::Send, 0, buf.len()).fits(counts),
    ensures
        ({
            let begun = Transfer::at(socket, Direction::Send, 0, buf.len());
            &&& begun.sent(buf, counts) == buf.take(begun.run(counts).position())
            &&& begun.run(counts) is Done ==> {
                &&& begun.sent(buf, counts) == buf
                &&& begun.run(counts) == Transfer::Done(Ok(buf.len() as usize))
            }
        }),
{
    let begun = Transfer::at(socket, Direction::Send, 0, buf.len());
    lemma_sent(begun, buf, counts);
    assert(buf.subrange(0, begun.run(counts).position()) =~= buf.take(
        begun.run(counts).position(),
    ));
    assert(buf.subrange(0, buf.len() as int) =~= buf);
}

proof fn lemma_filled(state: Transfer, buf: Seq<u8>, chunks: Seq<Seq<u8>>)
    requires
        buf.len() <= usize::MAX,
        forall|i: int| 0 <= i < chunks.len() ==> (#[trigger] chunks[i]).len() <= usize::MAX,
        state.wf(),
        state.fits(lengths(chunks)),
        state !is Done || state is Done && state->Done_0 is Ok,
        state.position() + state.left() == buf.len(),
    ensures
        ({
            let end = state.run(lengths(chunks)).position();
            &&& state.filled(buf, chunks) == buf.take(state.position()) + chunks.flatten()
                + buf.skip(end)
            &&& end == state.position() + chunks.flatten().len()
            &&& end <= buf.len()
            &&& state.run(lengths(chunks)) is Done ==> end == buf.len()
        }),
    decreases chunks.len(),
{
    if chunks.len() != 0 {
        let counts = lengths(chunks);
        let rest = chunks.drop_first();
        let next = state.next(Ok(counts[0]));
        let start = state.position();
        let after = placed(buf, start, chunks[0]);
        assert(counts.drop_first() =~= lengths(rest));
        assert(next.position() == start + chunks[0].len());
        assert forall|i: int| 0 <= i < rest.len() implies (#[trigger] rest[i]).len()
            <= usize::MAX by {
            assert(rest[i] == chunks[i + 1]);
        }
        assert(after.len() == buf.len());
        lemma_filled(next, after, rest);
        let end = next.run(lengths(rest)).position();
        assert(after.take(next.position()) =~= buf.take(start) + chunks[0]);
        assert(after.skip(end) =~= buf.skip(end));
        assert(state.filled(buf, chunks) =~= buf.take(start) + (chunks[0] + rest.flatten())
            + buf.skip(end));
    } else {
        assert(buf.take(state.position()) + Seq::<u8>::empty() + buf.skip(state.position())
            =~= buf);
    }
}

/// At any time, the beginning of the buffer of a transfer holds what has been received, in the
/// order in which it came, and the rest of the buffer is as it was. Once the transfer is done, all
/// of the buffer has been received, and the transfer says how long it is.
pub proof fn law_read_all_fills_buffer(socket: i32, buf: Seq<u8>, chunks: Seq<Seq<u8>>)
    requires
        buf.len() <= usize::MAX,
        forall|i: int| 0 <= i < chunks.len() ==> (#[trigger] chunks[i]).len() <= usize::MAX,
        Transfer::at(socket, Direction::Receive, 0, buf.len()).fits(lengths(chunks)),
    ensures
        ({
            let begun = Transfer::at(socket, Direction::Receive, 0, buf.len());
            let received = chunks.flatten();
            &&& begun.filled(buf, chunks) == received + buf.skip(received.len() as int)
            &&& begun.run(lengths(chunks)) is Done ==> {
                &&& begun.filled(buf, chunks) == received
                &&& received.len() == buf.len()
                &&& begun.run(lengths(chunks)) == Transfer::Done(Ok(buf.len() as usize))
            }
        }),
{
    let begun = Transfer::at(socket, Direction::Receive, 0, buf.len());
    let received = chunks.flatten();
    lemma_filled(begun, buf, chunks);
    lemma_sent(begun, buf, lengths(chunks));
    assert(begun.filled(buf, chunks) =~= received + buf.skip(received.len() as int));
    if begun.run(lengths(chunks)) is Done {
        assert(begun.filled(buf, chunks) =~= received);
    }
}

/// A transfer ends as long as every system call moves something: there are no more calls than bytes.
pub proof fn law_transfer_ends(state: Transfer, counts: Seq<usize>)
    requires
        state.wf(),
        state.fits(counts),
        forall|i: int| 0 <= i < counts.len() ==> #[trigger] counts[i] > 0,
    ensures
        counts.len() <= state.left(),
        counts.len() == state.left() ==> state.run(counts) is Done,
    decreases counts.len(),
{
    if counts.len() != 0 {
        let rest = counts.drop_first();
        assert forall|i: int| 0 <= i < rest.len() implies #[trigger] rest[i] > 0 by {
            assert(rest[i] == counts[i + 1]);
        }
        assert(counts[0] > 0);
        law_transfer_ends(state.next(Ok(counts[0])), rest);
    }
}

/// A transfer of no bytes is done from the start, and a failure ends any transfer with its error.
pub proof fn law_transfer_stops(
    socket: i32,
    direction: Direction,
    moved: nat,
    len: nat,
    error: Error,
)
    requires
        moved < len <= usize::MAX,
    ensures
        Transfer::at(socket, direction, 0, 0) == Transfer::Done(Ok(0)),
        Transfer::at(socket, direction, moved, len).next(Err(error)) == Transfer::Done(Err(error)),
{
}

} // verus!
