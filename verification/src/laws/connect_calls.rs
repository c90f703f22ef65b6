//! What the binding of a socket and the making of a connection ask of the system, call by call.

use vstd::prelude::*;

use crate::addr::{SockAddr, SockAddrVm};
use crate::error::Error;
use crate::event::{Event, Stepwise};
use crate::laws::turns::{Ask, Turn};
use crate::platform::Platform;
use crate::port::PortPolicy;
use crate::socket::{SocketBind, Vsock};
use crate::stream::{Connect, VsockStream};
use crate::sys::SysCall;

verus! {

/// One try to bind a socket: the port, and what the system call returned, if it was made.
pub struct BindTry {
    pub drawn: Result<u32, Error>,
    pub bound: i32,
}

impl BindTry {
    /// There was a port, and the call did not fail.
    pub open spec fn works(self) -> bool {
        self.drawn is Ok && self.bound >= 0
    }

    /// This may be the error of the try: that of the search for a port or, where there was one, that
    /// of the call.
    pub open spec fn fails_with<P: Platform>(self, error: Error) -> bool {
        match self.drawn {
            Err(lack) => error == lack,
            Ok(_) => call_ensures(P::last_os_error, (), error),
        }
    }

    /// The system call of the try, where there was a port: the socket is bound to it.
    pub open spec fn asks(self, socket: i32, cid: u32) -> Seq<Ask> {
        match self.drawn {
            Err(_) => Seq::empty(),
            Ok(port) => seq![
                Ask {
                    call: SysCall::Bind { socket, addr: crate::laws::turns::wire(cid, port) },
                    ret: self.bound,
                },
            ],
        }
    }
}

/// The system calls of the tries, one after the other.
pub open spec fn bind_asks(socket: i32, cid: u32, tries: Seq<BindTry>) -> Seq<Ask>
    decreases tries.len(),
{
    if tries.len() == 0 {
        Seq::empty()
    } else {
        bind_asks(socket, cid, tries.drop_last()) + tries.last().asks(socket, cid)
    }
}

/// All of the tries fail, but for the last, of which nothing is said.
pub open spec fn bind_tries_fail(tries: Seq<BindTry>) -> bool {
    forall|i: int| 0 <= i < tries.len() - 1 ==> !(#[trigger] tries[i]).works()
}

/// The ports of the tries may be tried where `port` was asked for.
pub open spec fn bind_tries_pick(port: u32, tries: Seq<BindTry>) -> bool {
    forall|i: int|
        0 <= i < tries.len() ==> crate::laws::turns::picked(port, (#[trigger] tries[i]).drawn)
}

/// How many tries there are at most: eleven with random ports, one without.
pub open spec fn most_binds(ports: PortPolicy) -> int {
    match ports {
        PortPolicy::Random => 11,
        PortPolicy::Explicit => 1,
    }
}

/// The turn leads from one state to the other.
pub open spec fn bind_turn<P: Platform>(before: SocketBind, turn: Turn, after: SocketBind) -> bool {
    match turn {
        Turn::Asked(ask) => {
            &&& call_ensures(SocketBind::call, (&before,), Some(ask.call))
            &&& {
                ||| call_ensures(SocketBind::reply::<P>, (before, ask.ret), after)
                ||| exists|outcome: Result<i32, Error>|
                    crate::laws::turns::reads::<P>(ask.ret, outcome) && #[trigger] call_ensures(
                        SocketBind::step,
                        (before, Event::Returned(outcome)),
                        after,
                    )
            }
        },
        Turn::Searched => {
            &&& call_ensures(SocketBind::call, (&before,), None)
            &&& call_ensures(SocketBind::finish, (before,), None)
            &&& {
                ||| call_ensures(SocketBind::settle, (before,), after)
                ||| exists|drawn: Result<u32, Error>|
                    call_ensures(Vsock::gen_rand_port, (), Some(drawn)) && #[trigger] call_ensures(
                        SocketBind::step,
                        (before, Event::Drawn(drawn)),
                        after,
                    )
            }
        },
    }
}

/// The turns lead from each of the states to the next.
pub open spec fn bind_turns<P: Platform>(states: Seq<SocketBind>, turns: Seq<Turn>) -> bool {
    &&& states.len() == turns.len() + 1
    &&& forall|i: int|
        0 <= i < turns.len() ==> #[trigger] bind_turn::<P>(states[i], turns[i], states[i + 1])
}

/// The turn leads from one state to the other.
pub open spec fn connect_turn<P: Platform>(before: Connect, turn: Turn, after: Connect) -> bool {
    match turn {
        Turn::Asked(ask) => {
            &&& call_ensures(Connect::call, (&before,), Some(ask.call))
            &&& {
                ||| call_ensures(Connect::reply::<P>, (before, ask.ret), after)
                ||| exists|outcome: Result<i32, Error>|
                    crate::laws::turns::reads::<P>(ask.ret, outcome) && #[trigger] call_ensures(
                        Connect::step,
                        (before, Event::Returned(outcome)),
                        after,
                    )
            }
        },
        Turn::Searched => {
            &&& call_ensures(Connect::call, (&before,), None)
            &&& call_ensures(Connect::finish::<P>, (before,), None)
            &&& {
                ||| call_ensures(Connect::settle, (before,), after)
                ||| exists|drawn: Result<u32, Error>|
                    call_ensures(Vsock::gen_rand_port, (), Some(drawn)) && #[trigger] call_ensures(
                        Connect::step,
                        (before, Event::Drawn(drawn)),
                        after,
                    )
            }
        },
    }
}

/// The turns lead from each of the states to the next.
pub open spec fn connect_turns<P: Platform>(states: Seq<Connect>, turns: Seq<Turn>) -> bool {
    &&& states.len() == turns.len() + 1
    &&& forall|i: int|
        0 <= i < turns.len() ==> #[trigger] connect_turn::<P>(states[i], turns[i], states[i + 1])
}

/// Where the binding of an open socket stands after these tries have failed, or one has worked.
spec fn bind_course<P: Platform>(
    state: SocketBind,
    socket: i32,
    cid: u32,
    port: u32,
    ports: PortPolicy,
    tries: Seq<BindTry>,
    asks: Seq<Ask>,
) -> bool {
    let failed = tries.len() > 0 ==> !tries.last().works();
    &&& bind_tries_pick(port, tries)
    &&& bind_tries_fail(tries)
    &&& tries.len() <= most_binds(ports)
    &&& port != 0 || ports is Random
    &&& asks == bind_asks(socket, cid, tries)
    &&& match state {
        SocketBind::Open { .. } => false,
        SocketBind::Draw { cid: c, retries, socket: s } => {
            &&& c == cid && s == socket && port == 0 && failed
            &&& tries.len() == most_binds(ports) - 1 - retries
        },
        SocketBind::Bind { cid: c, port: p, drawn, retries, socket: s } => {
            &&& c == cid && s == socket && drawn == (port == 0) && failed
            &&& tries.len() == most_binds(ports) - 1 - retries
            &&& crate::laws::turns::picked(port, Ok(p))
        },
        SocketBind::Done(Ok(s)) => {
            s == socket && tries.len() > 0 && tries.last().works()
        },
        SocketBind::Done(Err(error)) => {
            &&& tries.len() == most_binds(ports) && failed
            &&& tries.last().fails_with::<P>(error)
        },
    }
}

proof fn lemma_one_more_try(
    socket: i32,
    cid: u32,
    port: u32,
    tries: Seq<BindTry>,
    last: BindTry,
)
    requires
        bind_tries_pick(port, tries),
        bind_tries_fail(tries),
        tries.len() > 0 ==> !tries.last().works(),
        crate::laws::turns::picked(port, last.drawn),
    ensures
        bind_tries_pick(port, tries.push(last)),
        bind_tries_fail(tries.push(last)),
        bind_asks(socket, cid, tries.push(last)) == bind_asks(socket, cid, tries) + last.asks(
            socket,
            cid,
        ),
{
    assert(tries.push(last).drop_last() =~= tries);
    assert forall|i: int| 0 <= i < tries.push(last).len() - 1 implies !(#[trigger] tries.push(
        last,
    )[i]).works() by {
        assert(tries.push(last)[i] == tries[i]);
    }
    assert forall|i: int| 0 <= i < tries.push(last).len() implies crate::laws::turns::picked(
        port,
        (#[trigger] tries.push(last)[i]).drawn,
    ) by {
        if i < tries.len() {
            assert(tries.push(last)[i] == tries[i]);
        }
    }
}

proof fn lemma_bind_drawn<P: Platform>(
    state: SocketBind,
    drawn: Result<u32, Error>,
    socket: i32,
    cid: u32,
    port: u32,
    ports: PortPolicy,
    tries: Seq<BindTry>,
    asks: Seq<Ask>,
) -> (more: Seq<BindTry>)
    requires
        bind_course::<P>(state, socket, cid, port, ports, tries, asks),
        Vsock::may_draw(Some(drawn)),
    ensures
        bind_course::<P>(
            state.next(Event::Drawn(drawn)),
            socket,
            cid,
            port,
            ports,
            more,
            asks,
        ),
{
    if state is Draw && drawn is Err {
        let last = BindTry { drawn, bound: 0 };
        lemma_one_more_try(socket, cid, port, tries, last);
        assert(bind_asks(socket, cid, tries.push(last)) =~= asks);
        tries.push(last)
    } else {
        tries
    }
}

proof fn lemma_bind_settled<P: Platform>(
    state: SocketBind,
    settled: SocketBind,
    socket: i32,
    cid: u32,
    port: u32,
    ports: PortPolicy,
    tries: Seq<BindTry>,
    asks: Seq<Ask>,
) -> (more: Seq<BindTry>)
    requires
        bind_course::<P>(state, socket, cid, port, ports, tries, asks),
        state.settles_to(settled),
    ensures
        bind_course::<P>(settled, socket, cid, port, ports, more, asks),
{
    if state is Draw {
        let drawn = choose|drawn: Option<Result<u32, Error>>| #[trigger]
            Vsock::may_draw(drawn) && settled == state.after_search(drawn);
        match drawn {
            Some(drawn) => lemma_bind_drawn::<P>(
                state,
                drawn,
                socket,
                cid,
                port,
                ports,
                tries,
                asks,
            ),
            None => tries,
        }
    } else {
        tries
    }
}

proof fn lemma_bind_returned<P: Platform>(
    state: SocketBind,
    ask: Ask,
    outcome: Result<i32, Error>,
    socket: i32,
    cid: u32,
    port: u32,
    ports: PortPolicy,
    tries: Seq<BindTry>,
    asks: Seq<Ask>,
) -> (more: Seq<BindTry>)
    requires
        bind_course::<P>(state, socket, cid, port, ports, tries, asks),
        state.waits_for() == Some(ask.call),
        crate::laws::turns::reads::<P>(ask.ret, outcome),
    ensures
        bind_course::<P>(
            state.next(Event::Returned(outcome)),
            socket,
            cid,
            port,
            ports,
            more,
            asks.push(ask),
        ),
{
    match state {
        SocketBind::Bind { cid: c, port: p, drawn, retries, socket: s } => {
            let last = BindTry { drawn: Ok(p), bound: ask.ret };
            lemma_one_more_try(socket, cid, port, tries, last);
            assert(asks.push(ask) =~= bind_asks(socket, cid, tries) + last.asks(socket, cid));
            tries.push(last)
        },
        _ => tries,
    }
}

proof fn lemma_bind_first<P: Platform>(socket: i32, cid: u32, port: u32, ports: PortPolicy)
    requires
        port != 0 || ports is Random,
    ensures
        bind_course::<P>(
            SocketBind::first(socket, cid, port, ports),
            socket,
            cid,
            port,
            ports,
            Seq::empty(),
            Seq::empty(),
        ),
{
}

proof fn lemma_bind_turn<P: Platform>(
    before: SocketBind,
    turn: Turn,
    after: SocketBind,
    socket: i32,
    cid: u32,
    port: u32,
    ports: PortPolicy,
    tries: Seq<BindTry>,
    turns: Seq<Turn>,
) -> (more: Seq<BindTry>)
    requires
        bind_course::<P>(
            before,
            socket,
            cid,
            port,
            ports,
            tries,
            crate::laws::turns::asked(turns),
        ),
        bind_turn::<P>(before, turn, after),
    ensures
        bind_course::<P>(
            after,
            socket,
            cid,
            port,
            ports,
            more,
            crate::laws::turns::asked(turns.push(turn)),
        ),
{
    let asks = crate::laws::turns::asked(turns);
    crate::laws::turns::lemma_asked_one_more(turns, turn);
    match turn {
        Turn::Asked(ask) => {
            if call_ensures(SocketBind::reply::<P>, (before, ask.ret), after) {
                let outcome = if ask.ret >= 0 {
                    Ok(ask.ret)
                } else {
                    Err(
                        choose|error: Error|
                            error.comes_from::<P>() && (#[trigger] before.next(
                                Event::Returned(Err(error)),
                            )).settles_to(after),
                    )
                };
                let more = lemma_bind_returned::<P>(
                    before,
                    ask,
                    outcome,
                    socket,
                    cid,
                    port,
                    ports,
                    tries,
                    asks,
                );
                lemma_bind_settled::<P>(
                    before.next(Event::Returned(outcome)),
                    after,
                    socket,
                    cid,
                    port,
                    ports,
                    more,
                    asks.push(ask),
                )
            } else {
                let outcome = choose|outcome: Result<i32, Error>|
                    crate::laws::turns::reads::<P>(ask.ret, outcome) && #[trigger] call_ensures(
                        SocketBind::step,
                        (before, Event::Returned(outcome)),
                        after,
                    );
                lemma_bind_returned::<P>(
                    before,
                    ask,
                    outcome,
                    socket,
                    cid,
                    port,
                    ports,
                    tries,
                    asks,
                )
            }
        },
        Turn::Searched => {
            if call_ensures(SocketBind::settle, (before,), after) {
                lemma_bind_settled::<P>(before, after, socket, cid, port, ports, tries, asks)
            } else {
                let drawn = choose|drawn: Result<u32, Error>|
                    call_ensures(Vsock::gen_rand_port, (), Some(drawn)) && #[trigger] call_ensures(
                        SocketBind::step,
                        (before, Event::Drawn(drawn)),
                        after,
                    );
                lemma_bind_drawn::<P>(before, drawn, socket, cid, port, ports, tries, asks)
            }
        },
    }
}

/// The binding of a socket to `cid` and `port` may begin like this.
pub open spec fn bind_begins(
    vsock: Vsock,
    cid: u32,
    port: u32,
    ports: PortPolicy,
    begun: SocketBind,
) -> bool {
    ||| call_ensures(Vsock::bind, (vsock, cid, port, ports), begun)
    ||| call_ensures(SocketBind::start, (vsock@, cid, port, ports), begun)
}

proof fn lemma_bind_turns<P: Platform>(
    states: Seq<SocketBind>,
    turns: Seq<Turn>,
    vsock: Vsock,
    cid: u32,
    port: u32,
    ports: PortPolicy,
) -> (tries: Seq<BindTry>)
    requires
        bind_turns::<P>(states, turns),
        bind_begins(vsock, cid, port, ports, states[0]),
        port != 0 || ports is Random,
    ensures
        bind_course::<P>(
            states.last(),
            vsock@,
            cid,
            port,
            ports,
            tries,
            crate::laws::turns::asked(turns),
        ),
    decreases turns.len(),
{
    if turns.len() == 0 {
        lemma_bind_first::<P>(vsock@, cid, port, ports);
        if call_ensures(SocketBind::start, (vsock@, cid, port, ports), states[0]) {
            Seq::empty()
        } else {
            lemma_bind_settled::<P>(
                SocketBind::first(vsock@, cid, port, ports),
                states[0],
                vsock@,
                cid,
                port,
                ports,
                Seq::empty(),
                Seq::empty(),
            )
        }
    } else {
        let earlier = states.drop_last();
        let before = turns.drop_last();
        assert forall|i: int| 0 <= i < before.len() implies #[trigger] bind_turn::<P>(
            earlier[i],
            before[i],
            earlier[i + 1],
        ) by {
            assert(bind_turn::<P>(states[i], turns[i], states[i + 1]));
        }
        let tries = lemma_bind_turns::<P>(earlier, before, vsock, cid, port, ports);
        let i = turns.len() - 1;
        assert(bind_turn::<P>(states[i], turns[i], states[i + 1]));
        assert(before.push(turns.last()) =~= turns);
        lemma_bind_turn::<P>(
            earlier.last(),
            turns.last(),
            states.last(),
            vsock@,
            cid,
            port,
            ports,
            tries,
            before,
        )
    }
}

/// The binding of a socket asks the system for just the calls of its tries, all on that socket and
/// the context identifier asked for: up to eleven with random ports, one without, each on the port
/// asked for or, where that was left open, on one found anew. The first that works is the last, and
/// the socket is the result. Where none works, all of them were made, and the error is that of the
/// last.
pub proof fn law_bind_asks<P: Platform>(
    vsock: Vsock,
    cid: u32,
    port: u32,
    ports: PortPolicy,
    states: Seq<SocketBind>,
    turns: Seq<Turn>,
    outcome: Option<Result<Vsock, Error>>,
) -> (tries: Seq<BindTry>)
    requires
        bind_turns::<P>(states, turns),
        bind_begins(vsock, cid, port, ports, states[0]),
        port != 0 || ports is Random,
        call_ensures(SocketBind::finish, (states.last(),), outcome),
    ensures
        bind_tries_pick(port, tries),
        bind_tries_fail(tries),
        tries.len() <= most_binds(ports),
        crate::laws::turns::asked(turns) == bind_asks(vsock@, cid, tries),
        match outcome {
            Some(Ok(bound)) => bound@ == vsock@ && tries.len() > 0 && tries.last().works(),
            Some(Err(error)) => {
                &&& tries.len() == most_binds(ports) && !tries.last().works()
                &&& tries.last().fails_with::<P>(error)
            },
            None => tries.len() > 0 ==> tries.len() < most_binds(ports) && !tries.last().works(),
        },
{
    lemma_bind_turns::<P>(states, turns, vsock, cid, port, ports)
}

/// Where no random port may stand in for port zero, the binding of a socket to it is refused from
/// the start, and nothing is asked of the system.
pub proof fn law_bind_refusal(
    vsock: Vsock,
    cid: u32,
    begun: SocketBind,
    call: Option<SysCall>,
    outcome: Option<Result<Vsock, Error>>,
)
    requires
        bind_begins(vsock, cid, 0, PortPolicy::Explicit, begun),
        call_ensures(SocketBind::call, (&begun,), call),
        call_ensures(SocketBind::finish, (begun,), outcome),
    ensures
        call is None,
        outcome == Some(Err::<Vsock, Error>(Error::ReservedPort)),
{
}

/// Where the making of a bound socket stands: `opened` is what the opening returned.
spec fn new_course<P: Platform>(
    state: SocketBind,
    ports: PortPolicy,
    opened: i32,
    tries: Seq<BindTry>,
    asks: Seq<Ask>,
) -> bool {
    match state {
        SocketBind::Open { cid, port, ports: q } => {
            &&& cid == 0xFFFF_FFFF && port == 0 && q == ports
            &&& asks == Seq::<Ask>::empty() && tries == Seq::<BindTry>::empty()
        },
        _ => {
            &&& asks.len() > 0
            &&& asks[0] == Ask { call: crate::laws::turns::opening(), ret: opened }
            &&& if opened < 0 {
                &&& asks.len() == 1 && tries == Seq::<BindTry>::empty()
                &&& state matches SocketBind::Done(Err(error))
                &&& call_ensures(P::last_os_error, (), error)
            } else if ports is Explicit {
                &&& asks.len() == 1 && tries == Seq::<BindTry>::empty()
                &&& state == SocketBind::Done(Err(Error::ReservedPort))
            } else {
                bind_course::<P>(
                    state,
                    opened,
                    0xFFFF_FFFF,
                    0,
                    PortPolicy::Random,
                    tries,
                    asks.drop_first(),
                )
            }
        },
    }
}

proof fn lemma_new_drawn<P: Platform>(
    state: SocketBind,
    drawn: Result<u32, Error>,
    ports: PortPolicy,
    opened: i32,
    tries: Seq<BindTry>,
    asks: Seq<Ask>,
) -> (more: Seq<BindTry>)
    requires
        new_course::<P>(state, ports, opened, tries, asks),
        Vsock::may_draw(Some(drawn)),
    ensures
        new_course::<P>(state.next(Event::Drawn(drawn)), ports, opened, more, asks),
{
    if state !is Open && opened >= 0 && ports is Random {
        lemma_bind_drawn::<P>(
            state,
            drawn,
            opened,
            0xFFFF_FFFF,
            0,
            PortPolicy::Random,
            tries,
            asks.drop_first(),
        )
    } else {
        tries
    }
}

proof fn lemma_new_settled<P: Platform>(
    state: SocketBind,
    settled: SocketBind,
    ports: PortPolicy,
    opened: i32,
    tries: Seq<BindTry>,
    asks: Seq<Ask>,
) -> (more: Seq<BindTry>)
    requires
        new_course::<P>(state, ports, opened, tries, asks),
        state.settles_to(settled),
    ensures
        new_course::<P>(settled, ports, opened, more, asks),
{
    if state !is Open && opened >= 0 && ports is Random {
        lemma_bind_settled::<P>(
            state,
            settled,
            opened,
            0xFFFF_FFFF,
            0,
            PortPolicy::Random,
            tries,
            asks.drop_first(),
        )
    } else {
        tries
    }
}

proof fn lemma_new_returned<P: Platform>(
    state: SocketBind,
    ask: Ask,
    outcome: Result<i32, Error>,
    ports: PortPolicy,
    opened: i32,
    tries: Seq<BindTry>,
    asks: Seq<Ask>,
) -> (more: (i32, Seq<BindTry>))
    requires
        new_course::<P>(state, ports, opened, tries, asks),
        state.waits_for() == Some(ask.call),
        crate::laws::turns::reads::<P>(ask.ret, outcome),
    ensures
        new_course::<P>(
            state.next(Event::Returned(outcome)),
            ports,
            more.0,
            more.1,
            asks.push(ask),
        ),
{
    if state is Open {
        assert(asks.push(ask).drop_first() =~= Seq::empty());
        if outcome is Ok && ports is Random {
            lemma_bind_first::<P>(ask.ret, 0xFFFF_FFFF, 0, PortPolicy::Random);
        }
        (ask.ret, Seq::empty())
    } else {
        assert(asks.push(ask).drop_first() =~= asks.drop_first().push(ask));
        let more = lemma_bind_returned::<P>(
            state,
            ask,
            outcome,
            opened,
            0xFFFF_FFFF,
            0,
            PortPolicy::Random,
            tries,
            asks.drop_first(),
        );
        (opened, more)
    }
}

proof fn lemma_new_turn<P: Platform>(
    before: SocketBind,
    turn: Turn,
    after: SocketBind,
    ports: PortPolicy,
    opened: i32,
    tries: Seq<BindTry>,
    turns: Seq<Turn>,
) -> (more: (i32, Seq<BindTry>))
    requires
        new_course::<P>(before, ports, opened, tries, crate::laws::turns::asked(turns)),
        bind_turn::<P>(before, turn, after),
    ensures
        new_course::<P>(
            after,
            ports,
            more.0,
            more.1,
            crate::laws::turns::asked(turns.push(turn)),
        ),
{
    let asks = crate::laws::turns::asked(turns);
    crate::laws::turns::lemma_asked_one_more(turns, turn);
    match turn {
        Turn::Asked(ask) => {
            if call_ensures(SocketBind::reply::<P>, (before, ask.ret), after) {
                let outcome = if ask.ret >= 0 {
                    Ok(ask.ret)
                } else {
                    Err(
                        choose|error: Error|
                            error.comes_from::<P>() && (#[trigger] before.next(
                                Event::Returned(Err(error)),
                            )).settles_to(after),
                    )
                };
                let (opened, more) = lemma_new_returned::<P>(
                    before,
                    ask,
                    outcome,
                    ports,
                    opened,
                    tries,
                    asks,
                );
                let more = lemma_new_settled::<P>(
                    before.next(Event::Returned(outcome)),
                    after,
                    ports,
                    opened,
                    more,
                    asks.push(ask),
                );
                (opened, more)
            } else {
                let outcome = choose|outcome: Result<i32, Error>|
                    crate::laws::turns::reads::<P>(ask.ret, outcome) && #[trigger] call_ensures(
                        SocketBind::step,
                        (before, Event::Returned(outcome)),
                        after,
                    );
                lemma_new_returned::<P>(before, ask, outcome, ports, opened, tries, asks)
            }
        },
        Turn::Searched => {
            if call_ensures(SocketBind::settle, (before,), after) {
                (opened, lemma_new_settled::<P>(before, after, ports, opened, tries, asks))
            } else {
                let drawn = choose|drawn: Result<u32, Error>|
                    call_ensures(Vsock::gen_rand_port, (), Some(drawn)) && #[trigger] call_ensures(
                        SocketBind::step,
                        (before, Event::Drawn(drawn)),
                        after,
                    );
                (opened, lemma_new_drawn::<P>(before, drawn, ports, opened, tries, asks))
            }
        },
    }
}

proof fn lemma_new_turns<P: Platform>(
    states: Seq<SocketBind>,
    turns: Seq<Turn>,
    ports: PortPolicy,
) -> (made: (i32, Seq<BindTry>))
    requires
        bind_turns::<P>(states, turns),
        call_ensures(Vsock::new, (ports,), states[0]),
    ensures
        new_course::<P>(
            states.last(),
            ports,
            made.0,
            made.1,
            crate::laws::turns::asked(turns),
        ),
    decreases turns.len(),
{
    if turns.len() == 0 {
        (0, Seq::empty())
    } else {
        let earlier = states.drop_last();
        let before = turns.drop_last();
        assert forall|i: int| 0 <= i < before.len() implies #[trigger] bind_turn::<P>(
            earlier[i],
            before[i],
            earlier[i + 1],
        ) by {
            assert(bind_turn::<P>(states[i], turns[i], states[i + 1]));
        }
        let (opened, tries) = lemma_new_turns::<P>(earlier, before, ports);
        let i = turns.len() - 1;
        assert(bind_turn::<P>(states[i], turns[i], states[i + 1]));
        assert(before.push(turns.last()) =~= turns);
        lemma_new_turn::<P>(
            earlier.last(),
            turns.last(),
            states.last(),
            ports,
            opened,
            tries,
            before,
        )
    }
}

/// What a bound socket is made by: a socket is opened and, with random ports, bound on any context
/// identifier by these tries.
pub open spec fn new_asks(opened: i32, tries: Seq<BindTry>) -> Seq<Ask> {
    seq![Ask { call: crate::laws::turns::opening(), ret: opened }] + bind_asks(
        opened,
        0xFFFF_FFFF,
        tries,
    )
}

/// The making of a bound socket asks the system to open one and then, with random ports, to bind
/// that very socket, on any context identifier, to unprivileged ports found at random, by up to
/// eleven tries; the first that works is the last. It gives that socket, or the error of the call
/// that could not open one, or that of the last of eleven tries; without random ports it is refused.
pub proof fn law_new_socket_asks<P: Platform>(
    ports: PortPolicy,
    states: Seq<SocketBind>,
    turns: Seq<Turn>,
    outcome: Option<Result<Vsock, Error>>,
) -> (made: (i32, Seq<BindTry>))
    requires
        bind_turns::<P>(states, turns),
        call_ensures(Vsock::new, (ports,), states[0]),
        call_ensures(SocketBind::finish, (states.last(),), outcome),
    ensures
        ({
            let (opened, tries) = made;
            &&& bind_tries_pick(0, tries)
            &&& bind_tries_fail(tries)
            &&& tries.len() <= 11
            &&& opened < 0 || ports is Explicit ==> tries.len() == 0
            &&& match outcome {
                Some(Ok(socket)) => {
                    &&& crate::laws::turns::asked(turns) == new_asks(opened, tries)
                    &&& opened >= 0 && socket@ == opened && tries.len() > 0
                    &&& tries.last().works()
                },
                Some(Err(error)) => {
                    &&& crate::laws::turns::asked(turns) == new_asks(opened, tries)
                    &&& if opened < 0 {
                        call_ensures(P::last_os_error, (), error)
                    } else if ports is Explicit {
                        error == Error::ReservedPort
                    } else {
                        &&& tries.len() == 11 && !tries.last().works()
                        &&& tries.last().fails_with::<P>(error)
                    }
                },
                None => crate::laws::turns::asked(turns).is_prefix_of(new_asks(opened, tries)),
            }
        }),
{
    let (opened, tries) = lemma_new_turns::<P>(states, turns, ports);
    let asks = crate::laws::turns::asked(turns);
    if asks.len() > 0 {
        assert(asks =~= seq![asks[0]] + asks.drop_first());
    }
    (opened, tries)
}

/// What a connection is made by: a bound socket is made, and then that very socket is connected to
/// `remote`, where it could be made.
pub open spec fn connect_asks(
    opened: i32,
    tries: Seq<BindTry>,
    remote: SockAddrVm,
    connected: i32,
) -> Seq<Ask> {
    if tries.len() > 0 && tries.last().works() {
        new_asks(opened, tries).push(
            Ask { call: SysCall::Connect { socket: opened, addr: remote }, ret: connected },
        )
    } else {
        new_asks(opened, tries)
    }
}

/// Where the making of a connection stands.
spec fn connect_course<P: Platform>(
    state: Connect,
    ports: PortPolicy,
    remote: SockAddrVm,
    opened: i32,
    tries: Seq<BindTry>,
    asks: Seq<Ask>,
) -> bool {
    match state {
        Connect::Local { local, remote: r } => {
            r == remote && local !is Done && new_course::<P>(local, ports, opened, tries, asks)
        },
        Connect::Remote { socket, remote: r } => {
            &&& r == remote
            &&& new_course::<P>(SocketBind::Done(Ok(socket)), ports, opened, tries, asks)
        },
        Connect::Done(result) => {
            ||| result is Err && new_course::<P>(
                SocketBind::Done(result),
                ports,
                opened,
                tries,
                asks,
            )
            ||| {
                &&& asks.len() > 0
                &&& asks.last().call == (SysCall::Connect { socket: opened, addr: remote })
                &&& new_course::<P>(
                    SocketBind::Done(Ok(opened)),
                    ports,
                    opened,
                    tries,
                    asks.drop_last(),
                )
                &&& match result {
                    Ok(socket) => socket == opened && asks.last().ret >= 0,
                    Err(error) => asks.last().ret < 0 && call_ensures(
                        P::last_os_error,
                        (),
                        error,
                    ),
                }
            }
        },
    }
}

proof fn lemma_connect_returned<P: Platform>(
    state: Connect,
    ask: Ask,
    outcome: Result<i32, Error>,
    ports: PortPolicy,
    remote: SockAddrVm,
    opened: i32,
    tries: Seq<BindTry>,
    asks: Seq<Ask>,
) -> (more: (i32, Seq<BindTry>))
    requires
        connect_course::<P>(state, ports, remote, opened, tries, asks),
        state.waits_for() == Some(ask.call),
        crate::laws::turns::reads::<P>(ask.ret, outcome),
    ensures
        connect_course::<P>(
            state.next(Event::Returned(outcome)),
            ports,
            remote,
            more.0,
            more.1,
            asks.push(ask),
        ),
{
    assert(asks.push(ask).drop_last() =~= asks);
    match state {
        Connect::Local { local, remote: r } => lemma_new_returned::<P>(
            local,
            ask,
            outcome,
            ports,
            opened,
            tries,
            asks,
        ),
        _ => (opened, tries),
    }
}

proof fn lemma_connect_drawn<P: Platform>(
    state: Connect,
    drawn: Result<u32, Error>,
    ports: PortPolicy,
    remote: SockAddrVm,
    opened: i32,
    tries: Seq<BindTry>,
    asks: Seq<Ask>,
) -> (more: Seq<BindTry>)
    requires
        connect_course::<P>(state, ports, remote, opened, tries, asks),
        Vsock::may_draw(Some(drawn)),
    ensures
        connect_course::<P>(
            state.next(Event::Drawn(drawn)),
            ports,
            remote,
            opened,
            more,
            asks,
        ),
{
    match state {
        Connect::Local { local, remote: r } => lemma_new_drawn::<P>(
            local,
            drawn,
            ports,
            opened,
            tries,
            asks,
        ),
        _ => tries,
    }
}

proof fn lemma_connect_settled<P: Platform>(
    state: Connect,
    settled: Connect,
    ports: PortPolicy,
    remote: SockAddrVm,
    opened: i32,
    tries: Seq<BindTry>,
    asks: Seq<Ask>,
) -> (more: Seq<BindTry>)
    requires
        connect_course::<P>(state, ports, remote, opened, tries, asks),
        state.settles_to(settled),
    ensures
        connect_course::<P>(settled, ports, remote, opened, more, asks),
{
    match state {
        Connect::Local { local, remote: r } => {
            let bound = choose|bound: SocketBind| #[trigger]
                local.settles_to(bound) && settled == Connect::with_local(bound, r);
            lemma_new_settled::<P>(local, bound, ports, opened, tries, asks)
        },
        _ => tries,
    }
}

proof fn lemma_connect_turn<P: Platform>(
    before: Connect,
    turn: Turn,
    after: Connect,
    ports: PortPolicy,
    remote: SockAddrVm,
    opened: i32,
    tries: Seq<BindTry>,
    turns: Seq<Turn>,
) -> (more: (i32, Seq<BindTry>))
    requires
        connect_course::<P>(
            before,
            ports,
            remote,
            opened,
            tries,
            crate::laws::turns::asked(turns),
        ),
        connect_turn::<P>(before, turn, after),
    ensures
        connect_course::<P>(
            after,
            ports,
            remote,
            more.0,
            more.1,
            crate::laws::turns::asked(turns.push(turn)),
        ),
{
    let asks = crate::laws::turns::asked(turns);
    crate::laws::turns::lemma_asked_one_more(turns, turn);
    match turn {
        Turn::Asked(ask) => {
            if call_ensures(Connect::reply::<P>, (before, ask.ret), after) {
                let outcome = if ask.ret >= 0 {
                    Ok(ask.ret)
                } else {
                    Err(
                        choose|error: Error|
                            error.comes_from::<P>() && (#[trigger] before.next(
                                Event::Returned(Err(error)),
                            )).settles_to(after),
                    )
                };
                let (opened, more) = lemma_connect_returned::<P>(
                    before,
                    ask,
                    outcome,
                    ports,
                    remote,
                    opened,
                    tries,
                    asks,
                );
                let more = lemma_connect_settled::<P>(
                    before.next(Event::Returned(outcome)),
                    after,
                    ports,
                    remote,
                    opened,
                    more,
                    asks.push(ask),
                );
                (opened, more)
            } else {
                let outcome = choose|outcome: Result<i32, Error>|
                    crate::laws::turns::reads::<P>(ask.ret, outcome) && #[trigger] call_ensures(
                        Connect::step,
                        (before, Event::Returned(outcome)),
                        after,
                    );
                lemma_connect_returned::<P>(
                    before,
                    ask,
                    outcome,
                    ports,
                    remote,
                    opened,
                    tries,
                    asks,
                )
            }
        },
        Turn::Searched => {
            if call_ensures(Connect::settle, (before,), after) {
                let more = lemma_connect_settled::<P>(
                    before,
                    after,
                    ports,
                    remote,
                    opened,
                    tries,
                    asks,
                );
                (opened, more)
            } else {
                let drawn = choose|drawn: Result<u32, Error>|
                    call_ensures(Vsock::gen_rand_port, (), Some(drawn)) && #[trigger] call_ensures(
                        Connect::step,
                        (before, Event::Drawn(drawn)),
                        after,
                    );
                let more = lemma_connect_drawn::<P>(
                    before,
                    drawn,
                    ports,
                    remote,
                    opened,
                    tries,
                    asks,
                );
                (opened, more)
            }
        },
    }
}

/// The making of a connection to `remote` may begin like this.
pub open spec fn connect_begins<P: Platform>(
    remote: SockAddrVm,
    ports: PortPolicy,
    begun: Connect,
) -> bool {
    ||| call_ensures(VsockStream::<P>::connect_with_socket_addr, (&remote, ports), begun)
    ||| call_ensures(VsockStream::<P>::connect_with_vsock_addr, (&remote, ports), begun)
    ||| exists|addr: SockAddr|
        addr@ == remote && #[trigger] call_ensures(
            VsockStream::<P>::connect,
            (&addr, ports),
            begun,
        )
    ||| exists|cid: u32, port: u32|
        remote == crate::laws::turns::wire(cid, port) && #[trigger] call_ensures(
            VsockStream::<P>::connect_with_cid_port,
            (cid, port, ports),
            begun,
        )
}

proof fn lemma_connect_turns<P: Platform>(
    states: Seq<Connect>,
    turns: Seq<Turn>,
    ports: PortPolicy,
    remote: SockAddrVm,
) -> (made: (i32, Seq<BindTry>))
    requires
        connect_turns::<P>(states, turns),
        connect_begins::<P>(remote, ports, states[0]),
    ensures
        connect_course::<P>(
            states.last(),
            ports,
            remote,
            made.0,
            made.1,
            crate::laws::turns::asked(turns),
        ),
    decreases turns.len(),
{
    if turns.len() == 0 {
        (0, Seq::empty())
    } else {
        let earlier = states.drop_last();
        let before = turns.drop_last();
        assert forall|i: int| 0 <= i < before.len() implies #[trigger] connect_turn::<P>(
            earlier[i],
            before[i],
            earlier[i + 1],
        ) by {
            assert(connect_turn::<P>(states[i], turns[i], states[i + 1]));
        }
        let (opened, tries) = lemma_connect_turns::<P>(earlier, before, ports, remote);
        let i = turns.len() - 1;
        assert(connect_turn::<P>(states[i], turns[i], states[i + 1]));
        assert(before.push(turns.last()) =~= turns);
        lemma_connect_turn::<P>(
            earlier.last(),
            turns.last(),
            states.last(),
            ports,
            remote,
            opened,
            tries,
            before,
        )
    }
}

/// The making of a connection asks the system to open a socket, to bind that very socket to a random
/// port as [`law_new_socket_asks`] says, and to connect that very socket to the address asked for.
/// The first of the three that fails ends the matter with its error; else that socket is the stream.
pub proof fn law_connect_asks<P: Platform>(
    remote: SockAddrVm,
    ports: PortPolicy,
    states: Seq<Connect>,
    turns: Seq<Turn>,
    outcome: Option<Result<VsockStream<P>, Error>>,
) -> (made: (i32, Seq<BindTry>, i32))
    requires
        connect_turns::<P>(states, turns),
        connect_begins::<P>(remote, ports, states[0]),
        call_ensures(Connect::finish::<P>, (states.last(),), outcome),
    ensures
        ({
            let (opened, tries, connected) = made;
            let bound = tries.len() > 0 && tries.last().works();
            let all = connect_asks(opened, tries, remote, connected);
            &&& bind_tries_pick(0, tries)
            &&& bind_tries_fail(tries)
            &&& tries.len() <= 11
            &&& opened < 0 || ports is Explicit ==> tries.len() == 0
            &&& match outcome {
                Some(Ok(stream)) => {
                    &&& crate::laws::turns::asked(turns) == all
                    &&& opened >= 0 && stream@ == opened && bound && connected >= 0
                },
                Some(Err(error)) => {
                    &&& crate::laws::turns::asked(turns) == all
                    &&& if opened < 0 {
                        call_ensures(P::last_os_error, (), error)
                    } else if ports is Explicit {
                        error == Error::ReservedPort
                    } else if bound {
                        connected < 0 && call_ensures(P::last_os_error, (), error)
                    } else {
                        tries.len() == 11 && tries.last().fails_with::<P>(error)
                    }
                },
                None => crate::laws::turns::asked(turns).is_prefix_of(all),
            }
        }),
{
    let (opened, tries) = lemma_connect_turns::<P>(states, turns, ports, remote);
    let asks = crate::laws::turns::asked(turns);
    if asks.len() > 0 {
        assert(asks =~= seq![asks[0]] + asks.drop_first());
        let front = asks.drop_last();
        assert(asks =~= front.push(asks.last()));
        if front.len() > 0 {
            assert(front =~= seq![front[0]] + front.drop_first());
        }
        (opened, tries, asks.last().ret)
    } else {
        (opened, tries, 0)
    }
}

/// A bound socket is connected by one system call, on that very socket and to the address asked for:
/// it is the stream where that worked, and the platform's error comes back where it did not.
pub proof fn law_bound_socket_connects<P: Platform>(
    vsock: Vsock,
    remote: SockAddrVm,
    cid: u32,
    port: u32,
    begun: Connect,
    call: Option<SysCall>,
    ret: i32,
    after: Connect,
    outcome: Option<Result<VsockStream<P>, Error>>,
)
    requires
        ({
            ||| call_ensures(Vsock::connect_with_socket_addr::<P>, (vsock, &remote), begun)
            ||| remote == crate::laws::turns::wire(cid, port) && call_ensures(
                Vsock::connect_with_cid_port::<P>,
                (vsock, cid, port),
                begun,
            )
        }),
        call_ensures(Connect::call, (&begun,), call),
        call_ensures(Connect::reply::<P>, (begun, ret), after),
        call_ensures(Connect::finish::<P>, (after,), outcome),
    ensures
        call == Some(SysCall::Connect { socket: vsock@, addr: remote }),
        match outcome {
            Some(Ok(stream)) => ret >= 0 && stream@ == vsock@,
            Some(Err(error)) => ret < 0 && call_ensures(P::last_os_error, (), error),
            None => false,
        },
{
}

/// The binding of a socket is never stuck: as long as it is under way it asks for a system call, or
/// it goes on by the search for a port, unless that is interrupted.
pub proof fn law_bind_goes_on(state: SocketBind, settled: SocketBind)
    requires
        call_ensures(SocketBind::call, (&state,), None),
        call_ensures(SocketBind::finish, (state,), None),
        call_ensures(SocketBind::settle, (state,), settled),
    ensures
        settled != state || call_ensures(Vsock::gen_rand_port, (), None),
{
}

/// The making of a connection is never stuck: as long as it is under way it asks for a system call,
/// or it goes on by the search for a port, unless that is interrupted.
pub proof fn law_connect_goes_on<P: Platform>(state: Connect, settled: Connect)
    requires
        call_ensures(Connect::call, (&state,), None),
        call_ensures(Connect::finish::<P>, (state,), None),
        call_ensures(Connect::settle, (state,), settled),
    ensures
        settled != state || call_ensures(Vsock::gen_rand_port, (), None),
{
}

/// Nothing is asked of the system once the binding of a socket has come to an end, and searching
/// changes nothing where a system call is waited for or all is done.
pub proof fn law_bind_rests(
    state: SocketBind,
    call: Option<SysCall>,
    outcome: Option<Result<Vsock, Error>>,
    settled: SocketBind,
)
    requires
        call_ensures(SocketBind::call, (&state,), call),
        call_ensures(SocketBind::finish, (state,), outcome),
        call_ensures(SocketBind::settle, (state,), settled),
    ensures
        !(call is Some && outcome is Some),
        call is Some || outcome is Some ==> settled == state,
{
}

/// Nothing is asked of the system once the making of a connection has come to an end, and searching
/// changes nothing where a system call is waited for or all is done.
pub proof fn law_connect_rests<P: Platform>(
    state: Connect,
    call: Option<SysCall>,
    outcome: Option<Result<VsockStream<P>, Error>>,
    settled: Connect,
)
    requires
        call_ensures(Connect::call, (&state,), call),
        call_ensures(Connect::finish::<P>, (state,), outcome),
        call_ensures(Connect::settle, (state,), settled),
    ensures
        !(call is Some && outcome is Some),
        call is Some || outcome is Some ==> settled == state,
{
}

/// What is not waited for changes nothing: what a system call returned where none was asked for, and
/// a port where none was searched for. So the end, once it is reached, is final.
pub proof fn law_bind_ignores(
    state: SocketBind,
    call: Option<SysCall>,
    outcome: Option<Result<Vsock, Error>>,
    returned: Result<i32, Error>,
    after_return: SocketBind,
    drawn: Result<u32, Error>,
    after_draw: SocketBind,
)
    requires
        call_ensures(SocketBind::call, (&state,), call),
        call_ensures(SocketBind::finish, (state,), outcome),
        call_ensures(SocketBind::step, (state, Event::Returned(returned)), after_return),
        call_ensures(SocketBind::step, (state, Event::Drawn(drawn)), after_draw),
    ensures
        call is None ==> after_return == state,
        call is Some || outcome is Some ==> after_draw == state,
{
}

/// What is not waited for changes nothing in the making of a connection, either.
pub proof fn law_connect_ignores<P: Platform>(
    state: Connect,
    call: Option<SysCall>,
    outcome: Option<Result<VsockStream<P>, Error>>,
    returned: Result<i32, Error>,
    after_return: Connect,
    drawn: Result<u32, Error>,
    after_draw: Connect,
)
    requires
        state matches Connect::Local { local, remote } ==> local !is Done,
        call_ensures(Connect::call, (&state,), call),
        call_ensures(Connect::finish::<P>, (state,), outcome),
        call_ensures(Connect::step, (state, Event::Returned(returned)), after_return),
        call_ensures(Connect::step, (state, Event::Drawn(drawn)), after_draw),
    ensures
        call is None ==> after_return == state,
        call is Some || outcome is Some ==> after_draw == state,
{
}

} // verus!
