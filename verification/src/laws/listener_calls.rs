//! What the making of a listener asks of the system, call by call.

use vstd::prelude::*;

use crate::addr::{AnyAddr, SockAddrVm};
use crate::error::Error;
use crate::event::{Event, Stepwise};
use crate::laws::turns::{Ask, Turn};
use crate::listener::{ListenerBind, VsockListener};
use crate::platform::Platform;
use crate::port::PortPolicy;
use crate::socket::Vsock;
use crate::sys::SysCall;

verus! {

/// One try to make a listener: the port, and what the system calls returned, as far as they were
/// made.
pub struct ListenerTry {
    pub drawn: Result<u32, Error>,
    pub opened: i32,
    pub bound: i32,
    pub listening: i32,
}

impl ListenerTry {
    /// There was a port, and no call failed.
    pub open spec fn works(self) -> bool {
        self.drawn is Ok && self.opened >= 0 && self.bound >= 0 && self.listening >= 0
    }

    /// This may be the error of the try: that of the search for a port or, where there was one, that
    /// of the call that failed.
    pub open spec fn fails_with<P: Platform>(self, error: Error) -> bool {
        match self.drawn {
            Err(lack) => error == lack,
            Ok(_) => call_ensures(P::last_os_error, (), error),
        }
    }

    /// The system calls of the try: a socket is opened, that very socket is bound to the port, and it
    /// is made to listen with a backlog of 128. The first call that fails is the last.
    pub open spec fn asks(self, cid: u32) -> Seq<Ask> {
        match self.drawn {
            Err(_) => Seq::empty(),
            Ok(port) => {
                let open = seq![Ask { call: crate::laws::turns::opening(), ret: self.opened }];
                let bind = open.push(
                    Ask {
                        call: SysCall::Bind {
                            socket: self.opened,
                            addr: crate::laws::turns::wire(cid, port),
                        },
                        ret: self.bound,
                    },
                );
                if self.opened < 0 {
                    open
                } else if self.bound < 0 {
                    bind
                } else {
                    bind.push(
                        Ask {
                            call: SysCall::Listen { socket: self.opened, backlog: 128 },
                            ret: self.listening,
                        },
                    )
                }
            },
        }
    }
}

/// The system calls of the tries, one after the other.
pub open spec fn listener_asks(cid: u32, tries: Seq<ListenerTry>) -> Seq<Ask>
    decreases tries.len(),
{
    if tries.len() == 0 {
        Seq::empty()
    } else {
        listener_asks(cid, tries.drop_last()) + tries.last().asks(cid)
    }
}

/// The making of a listener on `cid` and `port` may begin like this.
pub open spec fn listener_begins<P: Platform>(
    cid: u32,
    port: u32,
    ports: PortPolicy,
    begun: ListenerBind,
) -> bool {
    ||| call_ensures(VsockListener::<P>::bind_with_cid_port, (cid, port, ports), begun)
    ||| port == 0 && ports is Random && call_ensures(
        VsockListener::<P>::bind_with_cid,
        (cid,),
        begun,
    )
    ||| exists|addr: SockAddrVm|
        addr.svm_cid == cid && addr.svm_port == port && #[trigger] call_ensures(
            VsockListener::<P>::bind,
            (&AnyAddr::Vsock(addr), ports),
            begun,
        )
    ||| call_ensures(ListenerBind::start, (cid, port, ports), begun)
}

/// The turn leads from one state to the other.
pub open spec fn listener_turn<P: Platform>(
    before: ListenerBind,
    turn: Turn,
    after: ListenerBind,
) -> bool {
    match turn {
        Turn::Asked(ask) => {
            &&& call_ensures(ListenerBind::call, (&before,), Some(ask.call))
            &&& {
                ||| call_ensures(ListenerBind::reply::<P>, (before, ask.ret), after)
                ||| exists|outcome: Result<i32, Error>|
                    crate::laws::turns::reads::<P>(ask.ret, outcome) && #[trigger] call_ensures(
                        ListenerBind::step,
                        (before, Event::Returned(outcome)),
                        after,
                    )
            }
        },
        Turn::Searched => {
            &&& call_ensures(ListenerBind::call, (&before,), None)
            &&& call_ensures(ListenerBind::finish::<P>, (before,), None)
            &&& {
                ||| call_ensures(ListenerBind::settle, (before,), after)
                ||| exists|drawn: Result<u32, Error>|
                    call_ensures(Vsock::gen_rand_port, (), Some(drawn)) && #[trigger] call_ensures(
                        ListenerBind::step,
                        (before, Event::Drawn(drawn)),
                        after,
                    )
            }
        },
    }
}

/// The turns lead from each of the states to the next.
pub open spec fn listener_turns<P: Platform>(
    states: Seq<ListenerBind>,
    turns: Seq<Turn>,
) -> bool {
    &&& states.len() == turns.len() + 1
    &&& forall|i: int|
        0 <= i < turns.len() ==> #[trigger] listener_turn::<P>(states[i], turns[i], states[i + 1])
}

/// All of the tries fail, but for the last, of which nothing is said.
pub open spec fn listener_tries_fail(tries: Seq<ListenerTry>) -> bool {
    forall|i: int| 0 <= i < tries.len() - 1 ==> !(#[trigger] tries[i]).works()
}

/// The ports of the tries may be tried where `port` was asked for.
pub open spec fn listener_tries_pick(port: u32, tries: Seq<ListenerTry>) -> bool {
    forall|i: int|
        0 <= i < tries.len() ==> crate::laws::turns::picked(port, (#[trigger] tries[i]).drawn)
}

spec fn most(port: u32) -> int {
    if port == 0 {
        11
    } else {
        1
    }
}

/// Where the making of a listener stands after these tries have failed, or one has worked.
spec fn on_course<P: Platform>(
    state: ListenerBind,
    cid: u32,
    port: u32,
    tries: Seq<ListenerTry>,
    asks: Seq<Ask>,
) -> bool {
    let all = listener_asks(cid, tries);
    let failed = tries.len() > 0 ==> !tries.last().works();
    &&& listener_tries_pick(port, tries)
    &&& listener_tries_fail(tries)
    &&& tries.len() <= most(port)
    &&& match state {
        ListenerBind::Draw { cid: c, retries } => {
            &&& c == cid && port == 0 && failed && tries.len() == most(port) - 1 - retries
            &&& asks == all
        },
        ListenerBind::Open { cid: c, port: p, retries } => {
            &&& c == cid && failed && tries.len() == most(port) - 1 - retries
            &&& crate::laws::turns::picked(port, Ok(p))
            &&& asks == all
        },
        ListenerBind::Bind { cid: c, port: p, retries, socket } => {
            &&& c == cid && failed && tries.len() == most(port) - 1 - retries && socket >= 0
            &&& crate::laws::turns::picked(port, Ok(p))
            &&& asks == all.push(Ask { call: crate::laws::turns::opening(), ret: socket })
        },
        ListenerBind::Listen { cid: c, port: p, retries, socket } => {
            &&& c == cid && failed && tries.len() == most(port) - 1 - retries && socket >= 0
            &&& crate::laws::turns::picked(port, Ok(p))
            &&& asks.len() > 0 && asks.last().ret >= 0
            &&& asks == all.push(Ask { call: crate::laws::turns::opening(), ret: socket }).push(
                Ask {
                    call: SysCall::Bind { socket, addr: crate::laws::turns::wire(cid, p) },
                    ret: asks.last().ret,
                },
            )
        },
        ListenerBind::Done(Ok(socket)) => {
            &&& tries.len() > 0 && tries.last().works() && tries.last().opened == socket
            &&& asks == all
        },
        ListenerBind::Done(Err(error)) => {
            &&& tries.len() == most(port) && failed && tries.last().fails_with::<P>(error)
            &&& asks == all
        },
    }
}

proof fn lemma_one_more_try(cid: u32, port: u32, tries: Seq<ListenerTry>, last: ListenerTry)
    requires
        listener_tries_pick(port, tries),
        listener_tries_fail(tries),
        tries.len() > 0 ==> !tries.last().works(),
        crate::laws::turns::picked(port, last.drawn),
    ensures
        listener_tries_pick(port, tries.push(last)),
        listener_tries_fail(tries.push(last)),
        listener_asks(cid, tries.push(last)) == listener_asks(cid, tries) + last.asks(cid),
{
    assert(tries.push(last).drop_last() =~= tries);
    assert forall|i: int| 0 <= i < tries.push(last).len() - 1 implies !(#[trigger] tries.push(
        last,
    )[i]).works() by {
        assert(tries.push(last)[i] == tries[i]);
    }
    assert forall|i: int| 0 <= i < tries.push(last).len() implies crate::laws::turns::picked(
        port,
        (#[trigger] tries.push(last)[i]).drawn,
    ) by {
        if i < tries.len() {
            assert(tries.push(last)[i] == tries[i]);
        }
    }
}

proof fn lemma_drawn<P: Platform>(
    state: ListenerBind,
    drawn: Result<u32, Error>,
    cid: u32,
    port: u32,
    tries: Seq<ListenerTry>,
    asks: Seq<Ask>,
) -> (more: Seq<ListenerTry>)
    requires
        on_course::<P>(state, cid, port, tries, asks),
        state is Draw,
        Vsock::may_draw(Some(drawn)),
    ensures
        on_course::<P>(state.next(Event::Drawn(drawn)), cid, port, more, asks),
{
    if drawn is Ok {
        tries
    } else {
        let last = ListenerTry { drawn, opened: 0, bound: 0, listening: 0 };
        lemma_one_more_try(cid, port, tries, last);
        assert(listener_asks(cid, tries.push(last)) =~= listener_asks(cid, tries));
        tries.push(last)
    }
}

proof fn lemma_settled<P: Platform>(
    state: ListenerBind,
    settled: ListenerBind,
    cid: u32,
    port: u32,
    tries: Seq<ListenerTry>,
    asks: Seq<Ask>,
) -> (more: Seq<ListenerTry>)
    requires
        on_course::<P>(state, cid, port, tries, asks),
        state.settles_to(settled),
    ensures
        on_course::<P>(settled, cid, port, more, asks),
{
    if state is Draw {
        let drawn = choose|drawn: Option<Result<u32, Error>>| #[trigger]
            Vsock::may_draw(drawn) && settled == state.after_search(drawn);
        match drawn {
            Some(drawn) => lemma_drawn::<P>(state, drawn, cid, port, tries, asks),
            None => tries,
        }
    } else {
        tries
    }
}

proof fn lemma_returned<P: Platform>(
    state: ListenerBind,
    ask: Ask,
    outcome: Result<i32, Error>,
    cid: u32,
    port: u32,
    tries: Seq<ListenerTry>,
    asks: Seq<Ask>,
) -> (more: Seq<ListenerTry>)
    requires
        on_course::<P>(state, cid, port, tries, asks),
        state.waits_for() == Some(ask.call),
        crate::laws::turns::reads::<P>(ask.ret, outcome),
    ensures
        on_course::<P>(state.next(Event::Returned(outcome)), cid, port, more, asks.push(ask)),
{
    let ret = ask.ret;
    match state {
        ListenerBind::Open { cid: c, port: p, retries } => {
            if outcome is Ok {
                tries
            } else {
                let last = ListenerTry { drawn: Ok(p), opened: ret, bound: 0, listening: 0 };
                lemma_one_more_try(cid, port, tries, last);
                assert(asks.push(ask) =~= listener_asks(cid, tries) + last.asks(cid));
                tries.push(last)
            }
        },
        ListenerBind::Bind { cid: c, port: p, retries, socket } => {
            if outcome is Ok {
                tries
            } else {
                let last = ListenerTry { drawn: Ok(p), opened: socket, bound: ret, listening: 0 };
                lemma_one_more_try(cid, port, tries, last);
                assert(asks.push(ask) =~= listener_asks(cid, tries) + last.asks(cid));
                tries.push(last)
            }
        },
        ListenerBind::Listen { cid: c, port: p, retries, socket } => {
            let last = ListenerTry {
                drawn: Ok(p),
                opened: socket,
                bound: asks.last().ret,
                listening: ret,
            };
            lemma_one_more_try(cid, port, tries, last);
            assert(asks.push(ask) =~= listener_asks(cid, tries) + last.asks(cid));
            tries.push(last)
        },
        _ => tries,
    }
}

proof fn lemma_turn<P: Platform>(
    before: ListenerBind,
    turn: Turn,
    after: ListenerBind,
    cid: u32,
    port: u32,
    tries: Seq<ListenerTry>,
    turns: Seq<Turn>,
) -> (more: Seq<ListenerTry>)
    requires
        on_course::<P>(before, cid, port, tries, crate::laws::turns::asked(turns)),
        listener_turn::<P>(before, turn, after),
    ensures
        on_course::<P>(after, cid, port, more, crate::laws::turns::asked(turns.push(turn))),
{
    let asks = crate::laws::turns::asked(turns);
    crate::laws::turns::lemma_asked_one_more(turns, turn);
    match turn {
        Turn::Asked(ask) => {
            if call_ensures(ListenerBind::reply::<P>, (before, ask.ret), after) {
                let outcome = if ask.ret >= 0 {
                    Ok(ask.ret)
                } else {
                    Err(
                        choose|error: Error|
                            error.comes_from::<P>() && (#[trigger] before.next(
                                Event::Returned(Err(error)),
                            )).settles_to(after),
                    )
                };
                let more = lemma_returned::<P>(before, ask, outcome, cid, port, tries, asks);
                lemma_settled::<P>(
                    before.next(Event::Returned(outcome)),
                    after,
                    cid,
                    port,
                    more,
                    asks.push(ask),
                )
            } else {
                let outcome = choose|outcome: Result<i32, Error>|
                    crate::laws::turns::reads::<P>(ask.ret, outcome) && #[trigger] call_ensures(
                        ListenerBind::step,
                        (before, Event::Returned(outcome)),
                        after,
                    );
                lemma_returned::<P>(before, ask, outcome, cid, port, tries, asks)
            }
        },
        Turn::Searched => {
            if call_ensures(ListenerBind::settle, (before,), after) {
                lemma_settled::<P>(before, after, cid, port, tries, asks)
            } else {
                let drawn = choose|drawn: Result<u32, Error>|
                    call_ensures(Vsock::gen_rand_port, (), Some(drawn)) && #[trigger] call_ensures(
                        ListenerBind::step,
                        (before, Event::Drawn(drawn)),
                        after,
                    );
                lemma_drawn::<P>(before, drawn, cid, port, tries, asks)
            }
        },
    }
}

proof fn lemma_begun<P: Platform>(cid: u32, port: u32, ports: PortPolicy, begun: ListenerBind) -> (
tries: Seq<ListenerTry>)
    requires
        listener_begins::<P>(cid, port, ports, begun),
        port != 0 || ports is Random,
    ensures
        on_course::<P>(begun, cid, port, tries, Seq::empty()),
{
    let first = ListenerBind::first(cid, port, ports);
    assert(on_course::<P>(first, cid, port, Seq::empty(), Seq::empty()));
    if call_ensures(ListenerBind::start, (cid, port, ports), begun) {
        Seq::empty()
    } else {
        lemma_settled::<P>(first, begun, cid, port, Seq::empty(), Seq::empty())
    }
}

proof fn lemma_turns<P: Platform>(
    states: Seq<ListenerBind>,
    turns: Seq<Turn>,
    cid: u32,
    port: u32,
    ports: PortPolicy,
) -> (tries: Seq<ListenerTry>)
    requires
        listener_turns::<P>(states, turns),
        listener_begins::<P>(cid, port, ports, states[0]),
        port != 0 || ports is Random,
    ensures
        on_course::<P>(states.last(), cid, port, tries, crate::laws::turns::asked(turns)),
    decreases turns.len(),
{
    if turns.len() == 0 {
        lemma_begun::<P>(cid, port, ports, states[0])
    } else {
        let earlier = states.drop_last();
        let before = turns.drop_last();
        assert forall|i: int| 0 <= i < before.len() implies #[trigger] listener_turn::<P>(
            earlier[i],
            before[i],
            earlier[i + 1],
        ) by {
            assert(listener_turn::<P>(states[i], turns[i], states[i + 1]));
        }
        let tries = lemma_turns::<P>(earlier, before, cid, port, ports);
        let i = turns.len() - 1;
        assert(listener_turn::<P>(states[i], turns[i], states[i + 1]));
        assert(before.push(turns.last()) =~= turns);
        lemma_turn::<P>(earlier.last(), turns.last(), states.last(), cid, port, tries, before)
    }
}

/// The making of a listener asks the system for just the calls of its tries, of which there are up
/// to eleven where the port was left open, each on a port found anew, and one where it was given.
/// In each try the socket that was opened is the one that is bound to the address asked for and
/// made to listen. The first try that works is the last: its socket is the listener. Where none
/// works, all of them were made, and the error is that of the last.
pub proof fn law_listener_asks<P: Platform>(
    cid: u32,
    port: u32,
    ports: PortPolicy,
    states: Seq<ListenerBind>,
    turns: Seq<Turn>,
    outcome: Option<Result<VsockListener<P>, Error>>,
) -> (tries: Seq<ListenerTry>)
    requires
        listener_turns::<P>(states, turns),
        listener_begins::<P>(cid, port, ports, states[0]),
        port != 0 || ports is Random,
        call_ensures(ListenerBind::finish::<P>, (states.last(),), outcome),
    ensures
        listener_tries_pick(port, tries),
        listener_tries_fail(tries),
        tries.len() <= (if port == 0 {
            11int
        } else {
            1
        }),
        match outcome {
            Some(Ok(listener)) => {
                &&& tries.len() > 0 && tries.last().works() && listener@ == tries.last().opened
                &&& crate::laws::turns::asked(turns) == listener_asks(cid, tries)
            },
            Some(Err(error)) => {
                &&& tries.len() == (if port == 0 {
                    11int
                } else {
                    1
                })
                &&& !tries.last().works() && tries.last().fails_with::<P>(error)
                &&& crate::laws::turns::asked(turns) == listener_asks(cid, tries)
            },
            None => crate::laws::turns::asked(turns).is_prefix_of(listener_asks(cid, tries)),
        },
{
    let tries = lemma_turns::<P>(states, turns, cid, port, ports);
    let asks = crate::laws::turns::asked(turns);
    match states.last() {
        ListenerBind::Bind { cid: c, port: p, retries, socket } => {
            let last = ListenerTry { drawn: Ok(p), opened: socket, bound: -1i32, listening: 0 };
            lemma_one_more_try(cid, port, tries, last);
            assert(asks.is_prefix_of(listener_asks(cid, tries) + last.asks(cid)));
            tries.push(last)
        },
        ListenerBind::Listen { cid: c, port: p, retries, socket } => {
            let last = ListenerTry {
                drawn: Ok(p),
                opened: socket,
                bound: asks.last().ret,
                listening: 0,
            };
            lemma_one_more_try(cid, port, tries, last);
            assert(asks.is_prefix_of(listener_asks(cid, tries) + last.asks(cid)));
            tries.push(last)
        },
        _ => tries,
    }
}

/// A request that cannot be served is refused from the start, and nothing is asked of the system:
/// port zero where no random port may stand in for it, and an address of another family.
pub proof fn law_listener_refusals<P: Platform>(
    cid: u32,
    ports: PortPolicy,
    begun: ListenerBind,
    call: Option<SysCall>,
    outcome: Option<Result<VsockListener<P>, Error>>,
)
    requires
        call_ensures(ListenerBind::call, (&begun,), call),
        call_ensures(ListenerBind::finish::<P>, (begun,), outcome),
    ensures
        listener_begins::<P>(cid, 0, PortPolicy::Explicit, begun) ==> {
            &&& call is None
            &&& outcome == Some(Err::<VsockListener<P>, Error>(Error::ReservedPort))
        },
        call_ensures(VsockListener::<P>::bind, (&AnyAddr::Other, ports), begun) ==> {
            &&& call is None
            &&& outcome == Some(Err::<VsockListener<P>, Error>(Error::WrongAddressType))
        },
{
}

/// The making of a listener is never stuck: as long as it is under way it asks for a system call, or
/// it goes on by the search for a port, unless that is interrupted.
pub proof fn law_listener_goes_on<P: Platform>(state: ListenerBind, settled: ListenerBind)
    requires
        call_ensures(ListenerBind::call, (&state,), None),
        call_ensures(ListenerBind::finish::<P>, (state,), None),
        call_ensures(ListenerBind::settle, (state,), settled),
    ensures
        settled != state || call_ensures(Vsock::gen_rand_port, (), None),
{
}

/// Nothing is asked of the system once the making of a listener has come to an end, and searching
/// changes nothing where a system call is waited for or all is done.
pub proof fn law_listener_rests<P: Platform>(
    state: ListenerBind,
    call: Option<SysCall>,
    outcome: Option<Result<VsockListener<P>, Error>>,
    settled: ListenerBind,
)
    requires
        call_ensures(ListenerBind::call, (&state,), call),
        call_ensures(ListenerBind::finish::<P>, (state,), outcome),
        call_ensures(ListenerBind::settle, (state,), settled),
    ensures
        !(call is Some && outcome is Some),
        call is Some || outcome is Some ==> settled == state,
{
}

/// What is not waited for changes nothing: what a system call returned where none was asked for, and
/// a port where none was searched for. So the end, once it is reached, is final.
pub proof fn law_listener_ignores<P: Platform>(
    state: ListenerBind,
    call: Option<SysCall>,
    outcome: Option<Result<VsockListener<P>, Error>>,
    returned: Result<i32, Error>,
    after_return: ListenerBind,
    drawn: Result<u32, Error>,
    after_draw: ListenerBind,
)
    requires
        call_ensures(ListenerBind::call, (&state,), call),
        call_ensures(ListenerBind::finish::<P>, (state,), outcome),
        call_ensures(ListenerBind::step, (state, Event::Returned(returned)), after_return),
        call_ensures(ListenerBind::step, (state, Event::Drawn(drawn)), after_draw),
    ensures
        call is None ==> after_return == state,
        call is Some || outcome is Some ==> after_draw == state,
{
}

} // verus!
