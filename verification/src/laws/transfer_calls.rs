//! What the transfer of a whole buffer asks of the system, call by call.

use vstd::prelude::*;

use crate::error::Error;
use crate::platform::Platform;
use crate::stream::{Transfer, VsockStream};
use crate::sys::{Direction, SysCall};

verus! {

/// A system call that was to move bytes, and what it returned.
pub struct Move {
    pub call: SysCall,
    pub ret: isize,
}

impl Move {
    /// Where in the buffer the bytes of the call begin.
    pub open spec fn start(self) -> int {
        match self.call {
            SysCall::Send { socket, start, end, nosignal } => start as int,
            SysCall::Recv { socket, start, end } => start as int,
            _ => 0,
        }
    }

    /// How many bytes the call moved.
    pub open spec fn count(self) -> int {
        if self.ret >= 0 {
            self.ret as int
        } else {
            0
        }
    }

    /// The call moved no more than it was asked to.
    pub open spec fn is_within_bounds(self) -> bool {
        match self.call {
            SysCall::Send { socket, start, end, nosignal } => self.ret <= end - start,
            SysCall::Recv { socket, start, end } => self.ret <= end - start,
            _ => true,
        }
    }
}

/// How many bytes the calls moved together.
pub open spec fn total(moves: Seq<Move>) -> int
    decreases moves.len(),
{
    if moves.len() == 0 {
        0
    } else {
        total(moves.drop_last()) + moves.last().count()
    }
}

/// The bytes of `buf` that the calls handed to the system, in their order: of each, as many as it
/// moved, from where it was told to begin.
pub open spec fn handed(buf: Seq<u8>, moves: Seq<Move>) -> Seq<u8>
    decreases moves.len(),
{
    if moves.len() == 0 {
        Seq::empty()
    } else {
        let last = moves.last();
        handed(buf, moves.drop_last()) + buf.subrange(last.start(), last.start() + last.count())
    }
}

/// The buffer after the calls have each put a chunk where they were told to.
pub open spec fn arrived(buf: Seq<u8>, moves: Seq<Move>, chunks: Seq<Seq<u8>>) -> Seq<u8>
    decreases moves.len(),
{
    if moves.len() == 0 {
        buf
    } else {
        let before = arrived(buf, moves.drop_last(), chunks.drop_last());
        let start = moves.last().start();
        before.take(start) + chunks.last() + before.skip(start + chunks.last().len())
    }
}

/// The chunks, one after the other.
pub open spec fn joined(chunks: Seq<Seq<u8>>) -> Seq<u8>
    decreases chunks.len(),
{
    if chunks.len() == 0 {
        Seq::empty()
    } else {
        joined(chunks.drop_last()) + chunks.last()
    }
}

/// There is a chunk for each of the calls, of as many bytes as it moved.
pub open spec fn chunks_fit(moves: Seq<Move>, chunks: Seq<Seq<u8>>) -> bool {
    &&& chunks.len() == moves.len()
    &&& forall|i: int| 0 <= i < moves.len() ==> (#[trigger] chunks[i]).len() == moves[i].count()
}

/// This is what a system call that returned `ret` comes to: the number of bytes moved, or the error
/// that the platform gives for it.
pub open spec fn reads_count<P: Platform>(ret: isize, outcome: Result<usize, Error>) -> bool {
    match outcome {
        Ok(count) => ret >= 0 && count == ret,
        Err(error) => ret < 0 && call_ensures(P::last_os_error, (), error),
    }
}

/// The call that was waited for was made, and leads from one state to the other.
pub open spec fn transfer_turn<P: Platform>(before: Transfer, made: Move, after: Transfer) -> bool {
    &&& call_ensures(Transfer::call, (&before,), Some(made.call))
    &&& made.is_within_bounds()
    &&& {
        ||| call_ensures(Transfer::reply::<P>, (before, made.ret), after)
        ||| exists|outcome: Result<usize, Error>|
            reads_count::<P>(made.ret, outcome) && #[trigger] call_ensures(
                Transfer::step,
                (before, outcome),
                after,
            )
    }
}

/// The calls lead from each of the states to the next.
pub open spec fn transfer_turns<P: Platform>(states: Seq<Transfer>, moves: Seq<Move>) -> bool {
    &&& states.len() == moves.len() + 1
    &&& forall|i: int|
        0 <= i < moves.len() ==> #[trigger] transfer_turn::<P>(states[i], moves[i], states[i + 1])
}

/// The call for the bytes of a buffer from `start` on.
pub open spec fn call_for(socket: i32, direction: Direction, start: int, len: nat) -> SysCall {
    match direction {
        Direction::Send => SysCall::Send {
            socket,
            start: start as usize,
            end: len as usize,
            nosignal: true,
        },
        Direction::Receive => SysCall::Recv { socket, start: start as usize, end: len as usize },
    }
}

/// Each of the calls is for the bytes that those before it have left, of which there are some, and
/// none but the last fails.
pub open spec fn go_on(socket: i32, direction: Direction, len: nat, moves: Seq<Move>) -> bool {
    &&& forall|i: int|
        0 <= i < moves.len() ==> {
            &&& (#[trigger] moves[i]).call == call_for(
                socket,
                direction,
                total(moves.take(i)),
                len,
            )
            &&& 0 <= total(moves.take(i)) < len
        }
    &&& forall|i: int| 0 <= i < moves.len() - 1 ==> (#[trigger] moves[i]).ret >= 0
}

spec fn on_course<P: Platform>(
    state: Transfer,
    socket: i32,
    direction: Direction,
    len: nat,
    moves: Seq<Move>,
) -> bool {
    &&& len <= usize::MAX
    &&& go_on(socket, direction, len, moves)
    &&& 0 <= total(moves) <= len
    &&& match state {
        Transfer::Moving { socket: s, direction: d, moved, len: l } => {
            &&& s == socket && d == direction && l == len && moved == total(moves) && moved < len
            &&& moves.len() > 0 ==> moves.last().ret >= 0
        },
        Transfer::Done(Ok(count)) => {
            &&& count == len && total(moves) == len
            &&& moves.len() > 0 ==> moves.last().ret >= 0
        },
        Transfer::Done(Err(error)) => {
            moves.len() > 0 && moves.last().ret < 0 && call_ensures(P::last_os_error, (), error)
        },
    }
}

proof fn lemma_turn<P: Platform>(
    before: Transfer,
    made: Move,
    after: Transfer,
    socket: i32,
    direction: Direction,
    len: nat,
    moves: Seq<Move>,
)
    requires
        on_course::<P>(before, socket, direction, len, moves),
        transfer_turn::<P>(before, made, after),
    ensures
        on_course::<P>(after, socket, direction, len, moves.push(made)),
{
    let all = moves.push(made);
    assert(all.drop_last() =~= moves);
    assert(total(all) == total(moves) + made.count());
    assert forall|i: int| 0 <= i < all.len() implies {
        &&& (#[trigger] all[i]).call == call_for(socket, direction, total(all.take(i)), len)
        &&& 0 <= total(all.take(i)) < len
    } by {
        if i < moves.len() {
            assert(all[i] == moves[i]);
            assert(all.take(i) =~= moves.take(i));
        } else {
            assert(all.take(i) =~= moves);
        }
    }
    assert forall|i: int| 0 <= i < all.len() - 1 implies (#[trigger] all[i]).ret >= 0 by {
        assert(all[i] == moves[i]);
    }
    if !call_ensures(Transfer::reply::<P>, (before, made.ret), after) {
        let outcome = choose|outcome: Result<usize, Error>|
            reads_count::<P>(made.ret, outcome) && #[trigger] call_ensures(
                Transfer::step,
                (before, outcome),
                after,
            );
        assert(after == before.next(outcome));
    } else if made.ret < 0 {
        let error = choose|error: Error|
            error.comes_from::<P>() && after == #[trigger] before.next(Err(error));
        assert(after == before.next(Err(error)));
    }
}

proof fn lemma_turns<P: Platform>(
    states: Seq<Transfer>,
    moves: Seq<Move>,
    socket: i32,
    direction: Direction,
    len: nat,
)
    requires
        transfer_turns::<P>(states, moves),
        on_course::<P>(states[0], socket, direction, len, Seq::empty()),
    ensures
        on_course::<P>(states.last(), socket, direction, len, moves),
    decreases moves.len(),
{
    if moves.len() == 0 {
        assert(moves =~= Seq::empty());
    } else {
        let earlier = states.drop_last();
        let before = moves.drop_last();
        assert forall|i: int| 0 <= i < before.len() implies #[trigger] transfer_turn::<P>(
            earlier[i],
            before[i],
            earlier[i + 1],
        ) by {
            assert(transfer_turn::<P>(states[i], moves[i], states[i + 1]));
        }
        lemma_turns::<P>(earlier, before, socket, direction, len);
        let i = moves.len() - 1;
        assert(transfer_turn::<P>(states[i], moves[i], states[i + 1]));
        assert(before.push(moves.last()) =~= moves);
        lemma_turn::<P>(
            earlier.last(),
            moves.last(),
            states.last(),
            socket,
            direction,
            len,
            before,
        );
    }
}

proof fn lemma_fewer(socket: i32, direction: Direction, len: nat, moves: Seq<Move>)
    requires
        moves.len() > 0,
        go_on(socket, direction, len, moves),
    ensures
        go_on(socket, direction, len, moves.drop_last()),
        moves.last().call == call_for(socket, direction, total(moves.drop_last()), len),
        0 <= total(moves.drop_last()) < len,
{
    let before = moves.drop_last();
    assert forall|i: int| 0 <= i < before.len() implies {
        &&& (#[trigger] before[i]).call == call_for(socket, direction, total(before.take(i)), len)
        &&& 0 <= total(before.take(i)) < len
    } by {
        assert(before[i] == moves[i]);
        assert(before.take(i) =~= moves.take(i));
    }
    assert forall|i: int| 0 <= i < before.len() - 1 implies (#[trigger] before[i]).ret >= 0 by {
        assert(before[i] == moves[i]);
    }
    assert(moves[moves.len() - 1] == moves.last());
    assert(moves.take(moves.len() - 1) =~= before);
}

proof fn lemma_handed(socket: i32, buf: Seq<u8>, moves: Seq<Move>)
    requires
        buf.len() <= usize::MAX,
        go_on(socket, Direction::Send, buf.len(), moves),
        total(moves) <= buf.len(),
    ensures
        handed(buf, moves) == buf.take(total(moves)),
    decreases moves.len(),
{
    if moves.len() > 0 {
        lemma_fewer(socket, Direction::Send, buf.len(), moves);
        lemma_handed(socket, buf, moves.drop_last());
    }
    assert(handed(buf, moves) =~= buf.take(total(moves)));
}

proof fn lemma_arrived(socket: i32, buf: Seq<u8>, moves: Seq<Move>, chunks: Seq<Seq<u8>>)
    requires
        buf.len() <= usize::MAX,
        go_on(socket, Direction::Receive, buf.len(), moves),
        total(moves) <= buf.len(),
        chunks_fit(moves, chunks),
    ensures
        joined(chunks).len() == total(moves),
        arrived(buf, moves, chunks) == joined(chunks) + buf.skip(total(moves)),
    decreases moves.len(),
{
    if moves.len() > 0 {
        let before = moves.drop_last();
        let earlier = chunks.drop_last();
        lemma_fewer(socket, Direction::Receive, buf.len(), moves);
        assert forall|i: int| 0 <= i < before.len() implies (#[trigger] earlier[i]).len()
            == before[i].count() by {
            assert(earlier[i] == chunks[i]);
        }
        lemma_arrived(socket, buf, before, earlier);
        assert(chunks[moves.len() - 1].len() == moves.last().count());
    }
    assert(arrived(buf, moves, chunks) =~= joined(chunks) + buf.skip(total(moves)));
}

/// To write a whole buffer is to ask the system, on the stream's own socket and with no signal, to
/// send what is left of it, again and again: each call begins with the byte after the last one
/// sent, and ends with the last of the buffer. So what is handed to the system is the buffer from
/// its beginning, each byte once and in its place. It is done once that is the whole buffer, whose
/// length is the result, or once a call fails, whose error is the result.
pub proof fn law_write_all_asks<P: Platform>(
    stream: VsockStream<P>,
    buf: &[u8],
    states: Seq<Transfer>,
    moves: Seq<Move>,
    outcome: Option<Result<usize, Error>>,
)
    requires
        buf@.len() <= usize::MAX,
        transfer_turns::<P>(states, moves),
        call_ensures(VsockStream::<P>::write_all, (&stream, buf), states[0]),
        call_ensures(Transfer::finish, (states.last(),), outcome),
    ensures
        go_on(stream@, Direction::Send, buf@.len(), moves),
        handed(buf@, moves) == buf@.take(total(moves)),
        match outcome {
            Some(Ok(count)) => {
                &&& count == buf@.len() && handed(buf@, moves) == buf@
                &&& moves.len() > 0 ==> moves.last().ret >= 0
            },
            Some(Err(error)) => {
                &&& moves.len() > 0 && moves.last().ret < 0
                &&& call_ensures(P::last_os_error, (), error)
            },
            None => {
                &&& total(moves) < buf@.len()
                &&& moves.len() > 0 ==> moves.last().ret >= 0
            },
        },
{
    lemma_turns::<P>(states, moves, stream@, Direction::Send, buf@.len());
    lemma_handed(stream@, buf@, moves);
    assert(buf@.take(buf@.len() as int) =~= buf@);
}

/// To fill a whole buffer is to ask the system, on the stream's own socket, to receive into what is
/// left of it, again and again: each call begins with the byte after the last one filled, and ends
/// with the last of the buffer. So the buffer holds, from its beginning, what came in, in the order
/// in which it did, and is unchanged after that. It is done once it is full, and its length is the
/// result, or once a call fails, whose error is the result.
pub proof fn law_read_all_asks<P: Platform>(
    stream: VsockStream<P>,
    buf: &[u8],
    states: Seq<Transfer>,
    moves: Seq<Move>,
    chunks: Seq<Seq<u8>>,
    outcome: Option<Result<usize, Error>>,
)
    requires
        buf@.len() <= usize::MAX,
        transfer_turns::<P>(states, moves),
        chunks_fit(moves, chunks),
        call_ensures(VsockStream::<P>::read_all, (&stream, buf), states[0]),
        call_ensures(Transfer::finish, (states.last(),), outcome),
    ensures
        go_on(stream@, Direction::Receive, buf@.len(), moves),
        joined(chunks).len() == total(moves),
        arrived(buf@, moves, chunks) == joined(chunks) + buf@.skip(total(moves)),
        match outcome {
            Some(Ok(count)) => {
                &&& count == buf@.len() && arrived(buf@, moves, chunks) == joined(chunks)
                &&& moves.len() > 0 ==> moves.last().ret >= 0
            },
            Some(Err(error)) => {
                &&& moves.len() > 0 && moves.last().ret < 0
                &&& call_ensures(P::last_os_error, (), error)
            },
            None => {
                &&& total(moves) < buf@.len()
                &&& moves.len() > 0 ==> moves.last().ret >= 0
            },
        },
{
    lemma_turns::<P>(states, moves, stream@, Direction::Receive, buf@.len());
    lemma_arrived(stream@, buf@, moves, chunks);
    if total(moves) == buf@.len() {
        assert(arrived(buf@, moves, chunks) =~= joined(chunks));
    }
}

/// A transfer asks for a system call just as long as it is under way.
pub proof fn law_transfer_goes_on(
    state: Transfer,
    call: Option<SysCall>,
    outcome: Option<Result<usize, Error>>,
)
    requires
        call_ensures(Transfer::call, (&state,), call),
        call_ensures(Transfer::finish, (state,), outcome),
    ensures
        call is Some <==> outcome is None,
{
}

/// A transfer that is begun by the descriptor is the one that the stream with that descriptor
/// begins.
pub proof fn law_transfer_begins<P: Platform>(
    stream: VsockStream<P>,
    buf: &[u8],
    len: usize,
    written: Transfer,
    read: Transfer,
    send: Transfer,
    receive: Transfer,
)
    requires
        buf@.len() == len,
        call_ensures(VsockStream::<P>::write_all, (&stream, buf), written),
        call_ensures(VsockStream::<P>::read_all, (&stream, buf), read),
        call_ensures(Transfer::start, (stream@, Direction::Send, len), send),
        call_ensures(Transfer::start, (stream@, Direction::Receive, len), receive),
    ensures
        send == written,
        receive == read,
{
}

/// What a transfer came to is final: nothing that is told afterwards changes it.
pub proof fn law_transfer_rests<P: Platform>(
    state: Transfer,
    result: Result<usize, Error>,
    ret: isize,
    replied: Transfer,
    outcome: Result<usize, Error>,
    stepped: Transfer,
)
    requires
        call_ensures(Transfer::finish, (state,), Some(result)),
        call_ensures(Transfer::reply::<P>, (state, ret), replied),
        call_ensures(Transfer::step, (state, outcome), stepped),
    ensures
        replied == state,
        stepped == state,
{
}

} // verus!
