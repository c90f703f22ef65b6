//! What holds of the making of listeners.

use vstd::prelude::*;

use crate::addr::AF_VSOCK;
use crate::error::Error;
use crate::event::{Event, Stepwise};
use crate::listener::ListenerBind;
use crate::port::{PortPolicy, BIND_RETRIES, MAX_PRIVILEGED_PORT};
use crate::socket::Vsock;
use crate::sys::SysCall;

verus! {

/// One attempt to make a listener: what each of its steps came to, or would have come to.
pub struct ListenerAttempt {
    pub port: Result<u32, Error>,
    pub socket: Result<i32, Error>,
    pub bound: Result<i32, Error>,
    pub listening: Result<i32, Error>,
}

impl ListenerAttempt {
    /// The socket that the attempt opened, unless one of the steps after the port failed.
    pub open spec fn result_on_port(self) -> Result<i32, Error> {
        match (self.socket, self.bound, self.listening) {
            (Err(error), _, _) => Err(error),
            (_, Err(error), _) => Err(error),
            (_, _, Err(error)) => Err(error),
            (Ok(socket), _, _) => Ok(socket),
        }
    }

    /// The socket that the attempt opened, or the error of the first step that failed.
    pub open spec fn result(self) -> Result<i32, Error> {
        match self.port {
            Err(error) => Err(error),
            Ok(_) => self.result_on_port(),
        }
    }

    /// What happens in the steps after the port, up to the first that fails.
    pub open spec fn events_on_port(self) -> Seq<Event> {
        let opened = seq![Event::Returned(self.socket)];
        let bound = opened.push(Event::Returned(self.bound));
        if self.socket is Err {
            opened
        } else if self.bound is Err {
            bound
        } else {
            bound.push(Event::Returned(self.listening))
        }
    }

    /// What happens in the attempt, up to the first step that fails.
    pub open spec fn events(self) -> Seq<Event> {
        if self.port is Err {
            seq![Event::Drawn(self.port)]
        } else {
            seq![Event::Drawn(self.port)] + self.events_on_port()
        }
    }
}

/// What happens in the attempts, one after the other.
pub open spec fn listener_events(attempts: Seq<ListenerAttempt>) -> Seq<Event>
    decreases attempts.len(),
{
    if attempts.len() == 0 {
        Seq::empty()
    } else {
        attempts[0].events() + listener_events(attempts.drop_first())
    }
}

/// The attempts are those that are made with so many retries: all but the last fail, and the last
/// works unless the retries are used up.
pub open spec fn exhausts(attempts: Seq<ListenerAttempt>, retries: u32) -> bool {
    &&& 0 < attempts.len() <= retries + 1
    &&& forall|i: int| 0 <= i < attempts.len() - 1 ==> (#[trigger] attempts[i]).result() is Err
    &&& attempts.last().result() is Ok || attempts.len() == retries + 1
}

proof fn lemma_listener_on_port(cid: u32, port: u32, retries: u32, attempt: ListenerAttempt)
    ensures
        crate::event::run(
            ListenerBind::Open { cid, port, retries },
            attempt.events_on_port(),
        ) == (match attempt.result_on_port() {
            Ok(socket) => ListenerBind::Done(Ok(socket)),
            Err(error) => ListenerBind::after_failure(cid, retries, error),
        }),
{
    let open = ListenerBind::Open { cid, port, retries };
    let opened = seq![Event::Returned(attempt.socket)];
    crate::laws::runs::lemma_run_one(open, Event::Returned(attempt.socket));
    if attempt.socket is Ok {
        let bind = open.next(Event::Returned(attempt.socket));
        crate::laws::runs::law_run_in_parts(open, opened, seq![Event::Returned(attempt.bound)]);
        crate::laws::runs::lemma_run_one(bind, Event::Returned(attempt.bound));
        let bound = opened.push(Event::Returned(attempt.bound));
        assert(bound =~= opened + seq![Event::Returned(attempt.bound)]);
        if attempt.bound is Ok {
            let listen = bind.next(Event::Returned(attempt.bound));
            crate::laws::runs::law_run_in_parts(open, bound, seq![Event::Returned(attempt.listening)]);
            crate::laws::runs::lemma_run_one(listen, Event::Returned(attempt.listening));
            assert(bound.push(Event::Returned(attempt.listening)) =~= bound + seq![
                Event::Returned(attempt.listening),
            ]);
        }
    }
}

proof fn lemma_listener_attempt(cid: u32, retries: u32, attempt: ListenerAttempt)
    ensures
        crate::event::run(ListenerBind::Draw { cid, retries }, attempt.events()) == (
        match attempt.result() {
            Ok(socket) => ListenerBind::Done(Ok(socket)),
            Err(error) => ListenerBind::after_failure(cid, retries, error),
        }),
{
    let draw = ListenerBind::Draw { cid, retries };
    match attempt.port {
        Err(_) => {
            crate::laws::runs::lemma_run_one(draw, Event::Drawn(attempt.port));
        },
        Ok(port) => {
            crate::laws::runs::lemma_run_first(draw, Event::Drawn(attempt.port), attempt.events_on_port());
            lemma_listener_on_port(cid, port, retries, attempt);
        },
    }
}

proof fn lemma_listener_attempts(cid: u32, retries: u32, attempts: Seq<ListenerAttempt>)
    requires
        exhausts(attempts, retries),
    ensures
        crate::event::run(ListenerBind::Draw { cid, retries }, listener_events(attempts))
            == ListenerBind::Done(attempts.last().result()),
    decreases attempts.len(),
{
    let draw = ListenerBind::Draw { cid, retries };
    let rest = attempts.drop_first();
    crate::laws::runs::law_run_in_parts(draw, attempts[0].events(), listener_events(rest));
    lemma_listener_attempt(cid, retries, attempts[0]);
    if attempts.len() == 1 {
        crate::laws::runs::lemma_run_empty(ListenerBind::Done(attempts.last().result()));
    } else {
        assert(attempts[0].result() is Err);
        assert forall|i: int| 0 <= i < rest.len() - 1 implies (
        #[trigger] rest[i]).result() is Err by {
            assert(rest[i] == attempts[i + 1]);
        }
        lemma_listener_attempts(cid, (retries - 1) as u32, rest);
    }
}

/// A listener on a random port is made by up to eleven attempts, each with a port drawn anew: the
/// first that works ends the matter, and so does the last, with its own error where it fails.
pub proof fn law_listener_retries(cid: u32, attempts: Seq<ListenerAttempt>)
    requires
        exhausts(attempts, BIND_RETRIES),
    ensures
        crate::event::run(
            ListenerBind::first(cid, 0, PortPolicy::Random),
            listener_events(attempts),
        ) == ListenerBind::Done(attempts.last().result()),
{
    lemma_listener_attempts(cid, BIND_RETRIES, attempts);
}

/// A listener on a port that was asked for is made by one attempt, whose result is final.
pub proof fn law_listener_on_given_port(
    cid: u32,
    port: u32,
    ports: PortPolicy,
    attempt: ListenerAttempt,
)
    requires
        port != 0,
    ensures
        crate::event::run(ListenerBind::first(cid, port, ports), attempt.events_on_port())
            == ListenerBind::Done(attempt.result_on_port()),
{
    lemma_listener_on_port(cid, port, 0, attempt);
}

impl ListenerBind {
    /// This event is one that the state waits for.
    pub open spec fn awaits(self, event: Event) -> bool {
        match self {
            ListenerBind::Draw { .. } => event is Drawn,
            ListenerBind::Done(_) => false,
            _ => event is Returned,
        }
    }

    /// Each of the events is waited for when it comes.
    pub open spec fn awaits_all(self, events: Seq<Event>) -> bool
        decreases events.len(),
    {
        events.len() == 0 || (self.awaits(events[0]) && self.next(events[0]).awaits_all(
            events.drop_first(),
        ))
    }

    /// How many of the events find the socket waiting to be bound.
    pub open spec fn binds(self, events: Seq<Event>) -> nat
        decreases events.len(),
    {
        if events.len() == 0 {
            0
        } else {
            (if self is Bind { 1nat } else { 0nat }) + self.next(events[0]).binds(
                events.drop_first(),
            )
        }
    }

    /// How often the retries that are left allow a socket to be bound.
    pub open spec fn binds_left(self) -> nat {
        match self {
            ListenerBind::Draw { cid, retries } => (retries + 1) as nat,
            ListenerBind::Open { cid, port, retries } => (retries + 1) as nat,
            ListenerBind::Bind { cid, port, retries, socket } => (retries + 1) as nat,
            ListenerBind::Listen { cid, port, retries, socket } => retries as nat,
            ListenerBind::Done(_) => 0,
        }
    }

    /// How many steps the retries that are left allow.
    pub open spec fn steps_left(self) -> nat {
        match self {
            ListenerBind::Draw { cid, retries } => (4 * retries + 4) as nat,
            ListenerBind::Open { cid, port, retries } => (4 * retries + 3) as nat,
            ListenerBind::Bind { cid, port, retries, socket } => (4 * retries + 2) as nat,
            ListenerBind::Listen { cid, port, retries, socket } => (4 * retries + 1) as nat,
            ListenerBind::Done(_) => 0,
        }
    }

    /// The state belongs to a request for a listener on `cid` and `port`: the port is the one
    /// asked for, tried once, or, where none was, an unprivileged one, tried again at most so
    /// often; sockets have descriptors that are not negative.
    pub open spec fn serves(self, cid: u32, port: u32) -> bool {
        match self {
            ListenerBind::Draw { cid: c, retries } => {
                c == cid && port == 0 && retries <= BIND_RETRIES
            },
            ListenerBind::Open { cid: c, port: p, retries } => {
                c == cid && chosen(port, p, retries)
            },
            ListenerBind::Bind { cid: c, port: p, retries, socket } => {
                c == cid && chosen(port, p, retries) && socket >= 0
            },
            ListenerBind::Listen { cid: c, port: p, retries, socket } => {
                c == cid && chosen(port, p, retries) && socket >= 0
            },
            ListenerBind::Done(Ok(socket)) => socket >= 0,
            ListenerBind::Done(Err(_)) => true,
        }
    }
}

/// `port`, with so many retries left, is a choice for a request for the port `asked`.
pub open spec fn chosen(asked: u32, port: u32, retries: u32) -> bool {
    if asked == 0 {
        port > MAX_PRIVILEGED_PORT && retries <= BIND_RETRIES
    } else {
        port == asked && retries == 0
    }
}

/// What making a listener came to is final.
pub proof fn law_listener_done_is_final(result: Result<i32, Error>, events: Seq<Event>)
    ensures
        crate::event::run(ListenerBind::Done(result), events) == ListenerBind::Done(result),
    decreases events.len(),
{
    if events.len() != 0 {
        law_listener_done_is_final(result, events.drop_first());
    }
}

/// The making of a listener ends: there are no more steps than the retries allow.
pub proof fn law_listener_ends(state: ListenerBind, events: Seq<Event>)
    requires
        state.awaits_all(events),
    ensures
        events.len() <= state.steps_left(),
        events.len() == state.steps_left() ==> crate::event::run(state, events) is Done,
    decreases events.len(),
{
    if events.len() != 0 {
        law_listener_ends(state.next(events[0]), events.drop_first());
    }
}

proof fn lemma_listener_awaits_parts(state: ListenerBind, before: Seq<Event>, after: Seq<Event>)
    requires
        state.awaits_all(before + after),
    ensures
        crate::event::run(state, before).awaits_all(after),
    decreases before.len(),
{
    if before.len() == 0 {
        assert(before + after =~= after);
    } else {
        assert((before + after).drop_first() =~= before.drop_first() + after);
        lemma_listener_awaits_parts(state.next(before[0]), before.drop_first(), after);
    }
}

proof fn lemma_listener_first_attempt(cid: u32, retries: u32, events: Seq<Event>) -> (attempt:
    ListenerAttempt)
    requires
        (ListenerBind::Draw { cid, retries }).awaits_all(events),
        crate::event::run(ListenerBind::Draw { cid, retries }, events) is Done,
    ensures
        0 < attempt.events().len() <= events.len(),
        attempt.events() == events.take(attempt.events().len() as int),
{
    let draw = ListenerBind::Draw { cid, retries };
    let port = events[0]->Drawn_0;
    let unused = Ok::<i32, Error>(0);
    let tail = events.drop_first();
    let open = draw.next(events[0]);
    assert(open.awaits_all(tail));
    if port is Err {
        ListenerAttempt { port, socket: unused, bound: unused, listening: unused }
    } else {
        assert(crate::event::run(open, tail) is Done);
        let socket = tail[0]->Returned_0;
        let bind = open.next(tail[0]);
        let tail = tail.drop_first();
        assert(bind.awaits_all(tail));
        if socket is Err {
            ListenerAttempt { port, socket, bound: unused, listening: unused }
        } else {
            assert(crate::event::run(bind, tail) is Done);
            let bound = tail[0]->Returned_0;
            let listen = bind.next(tail[0]);
            let tail = tail.drop_first();
            assert(listen.awaits_all(tail));
            if bound is Err {
                ListenerAttempt { port, socket, bound, listening: unused }
            } else {
                assert(crate::event::run(listen, tail) is Done);
                ListenerAttempt { port, socket, bound, listening: tail[0]->Returned_0 }
            }
        }
    }
}

proof fn lemma_listener_run_is_attempts(cid: u32, retries: u32, events: Seq<Event>) -> (attempts:
    Seq<ListenerAttempt>)
    requires
        (ListenerBind::Draw { cid, retries }).awaits_all(events),
        crate::event::run(ListenerBind::Draw { cid, retries }, events) is Done,
    ensures
        exhausts(attempts, retries),
        events == listener_events(attempts),
    decreases retries,
{
    let draw = ListenerBind::Draw { cid, retries };
    let attempt = lemma_listener_first_attempt(cid, retries, events);
    let rest = events.skip(attempt.events().len() as int);
    let next = crate::event::run(draw, attempt.events());
    assert(events =~= attempt.events() + rest);
    crate::laws::runs::law_run_in_parts(draw, attempt.events(), rest);
    lemma_listener_awaits_parts(draw, attempt.events(), rest);
    lemma_listener_attempt(cid, retries, attempt);
    let after = if next is Done {
        Seq::empty()
    } else {
        lemma_listener_run_is_attempts(cid, (retries - 1) as u32, rest)
    };
    let attempts = seq![attempt] + after;
    assert(attempts.drop_first() =~= after);
    assert(listener_events(after) =~= rest);
    assert forall|i: int| 0 <= i < attempts.len() - 1 implies (
    #[trigger] attempts[i]).result() is Err by {
        if i > 0 {
            assert(attempts[i] == after[i - 1]);
        }
    }
    attempts
}

/// Whenever the making of a listener on a random port has come to an end, what happened were such
/// attempts: it succeeded if and only if one of them did, which was then the last; else eleven were
/// made, and the error is that of the last.
pub proof fn law_listener_comes_of_attempts(cid: u32, events: Seq<Event>) -> (attempts: Seq<
    ListenerAttempt,
>)
    requires
        ListenerBind::first(cid, 0, PortPolicy::Random).awaits_all(events),
        crate::event::run(ListenerBind::first(cid, 0, PortPolicy::Random), events) is Done,
    ensures
        exhausts(attempts, BIND_RETRIES),
        events == listener_events(attempts),
        crate::event::run(ListenerBind::first(cid, 0, PortPolicy::Random), events)
            == ListenerBind::Done(attempts.last().result()),
{
    let attempts = lemma_listener_run_is_attempts(cid, BIND_RETRIES, events);
    law_listener_retries(cid, attempts);
    attempts
}

/// Each search for a random port that fails for want of entropy costs a listener one attempt and
/// nothing more: after up to ten of them the next search is due, and the eleventh is final. No
/// system call is waited for on the way.
pub proof fn law_listener_without_entropy(cid: u32, searches: nat)
    requires
        searches <= BIND_RETRIES + 1,
    ensures
        crate::event::run(
            ListenerBind::first(cid, 0, PortPolicy::Random),
            crate::laws::runs::fruitless(searches),
        ) == (if searches <= BIND_RETRIES {
            ListenerBind::Draw { cid, retries: (BIND_RETRIES - searches) as u32 }
        } else {
            ListenerBind::Done(Err(Error::EntropyError))
        }),
        crate::event::run(
            ListenerBind::first(cid, 0, PortPolicy::Random),
            crate::laws::runs::fruitless(searches),
        ).waits_for() is None,
    decreases searches,
{
    let first = ListenerBind::first(cid, 0, PortPolicy::Random);
    if searches == 0 {
        assert(crate::laws::runs::fruitless(0) =~= Seq::empty());
        crate::laws::runs::lemma_run_empty(first);
    } else {
        let before = crate::laws::runs::fruitless((searches - 1) as nat);
        let last = Event::Drawn(Err(Error::EntropyError));
        law_listener_without_entropy(cid, (searches - 1) as nat);
        assert(crate::laws::runs::fruitless(searches) =~= before + seq![last]);
        crate::laws::runs::law_run_in_parts(first, before, seq![last]);
        crate::laws::runs::lemma_run_one(crate::event::run(first, before), last);
    }
}

/// With random ports, port zero stands for no port: such a request, like one that names no port at
/// all, starts with a search, whose port is the one that a socket is then opened for.
pub proof fn law_listener_without_port(cid: u32, drawn: Option<Result<u32, Error>>)
    ensures
        ListenerBind::first(cid, 0, PortPolicy::Random).after_search(drawn) == (match drawn {
            Some(Ok(port)) => ListenerBind::Open { cid, port, retries: BIND_RETRIES },
            Some(Err(_)) => ListenerBind::Draw { cid, retries: (BIND_RETRIES - 1) as u32 },
            None => ListenerBind::Draw { cid, retries: BIND_RETRIES },
        }),
{
}

/// A request for a listener on a random port binds a socket at most eleven times, one on a given
/// port once.
pub proof fn law_listener_binds(cid: u32, port: u32, ports: PortPolicy, events: Seq<Event>)
    requires
        ListenerBind::first(cid, port, ports).awaits_all(events),
    ensures
        ListenerBind::first(cid, port, ports).binds(events) <= (if port == 0 {
            BIND_RETRIES + 1
        } else {
            1
        }),
{
    lemma_listener_binds(ListenerBind::first(cid, port, ports), events);
}

proof fn lemma_listener_binds(state: ListenerBind, events: Seq<Event>)
    requires
        state.awaits_all(events),
    ensures
        state.binds(events) <= state.binds_left(),
    decreases events.len(),
{
    if events.len() != 0 {
        lemma_listener_binds(state.next(events[0]), events.drop_first());
    }
}

/// Whatever happens, the making of a listener stays with what was asked for: the socket is bound
/// to the context identifier and the port of the request, or to an unprivileged port where the
/// request left the port open. It is never bound to port zero.
pub proof fn law_listener_serves_request(
    cid: u32,
    port: u32,
    ports: PortPolicy,
    events: Seq<Event>,
)
    requires
        forall|i: int| 0 <= i < events.len() ==> (#[trigger] events[i]).possible(),
    ensures
        crate::event::run(ListenerBind::first(cid, port, ports), events).serves(cid, port),
        crate::event::run(ListenerBind::first(cid, port, ports), events).waits_for() matches Some(
            SysCall::Bind { socket, addr },
        ) ==> addr.svm_family == AF_VSOCK && addr.svm_cid == cid && (if port == 0 {
            addr.svm_port > MAX_PRIVILEGED_PORT
        } else {
            addr.svm_port == port
        }) && addr.svm_port != 0,
{
    lemma_listener_serves(ListenerBind::first(cid, port, ports), cid, port, events);
}

proof fn lemma_listener_serves(state: ListenerBind, cid: u32, port: u32, events: Seq<Event>)
    requires
        state.serves(cid, port),
        forall|i: int| 0 <= i < events.len() ==> (#[trigger] events[i]).possible(),
    ensures
        crate::event::run(state, events).serves(cid, port),
    decreases events.len(),
{
    if events.len() != 0 {
        let rest = events.drop_first();
        assert(events[0].possible());
        assert forall|i: int| 0 <= i < rest.len() implies (#[trigger] rest[i]).possible() by {
            assert(rest[i] == events[i + 1]);
        }
        lemma_listener_serves(state.next(events[0]), cid, port, rest);
    }
}

/// The drawing of ports, too, stays with what was asked for. It leads to a system call, unless the
/// search failed, which costs a retry and, where none is left, is the end, or was interrupted, which
/// costs nothing.
pub proof fn law_listener_settling_serves_request(
    state: ListenerBind,
    settled: ListenerBind,
    cid: u32,
    port: u32,
)
    requires
        state.serves(cid, port),
        state.settles_to(settled),
    ensures
        settled.serves(cid, port),
        settled is Done && state !is Done ==> {
            &&& state matches ListenerBind::Draw { cid: _, retries } && retries == 0
            &&& settled == ListenerBind::Done(Err(Error::EntropyError))
        },
        settled.waits_for() is None <==> settled is Done || settled is Draw,
        settled is Draw ==> {
            ||| Vsock::may_draw(None) && settled == state
            ||| Vsock::may_draw(Some(Err(Error::EntropyError))) && settled == state.next(
                Event::Drawn(Err(Error::EntropyError)),
            )
        },
{
}

/// To settle is to draw a port, at most one, and only where one is waited for: what is left then is
/// what a run through the draw, and nothing else, leads to. What holds of runs therefore holds of
/// operations that settle on their way.
pub proof fn law_listener_settling_is_drawing(
    state: ListenerBind,
    settled: ListenerBind,
) -> (draws: Seq<Event>)
    requires
        state.settles_to(settled),
    ensures
        draws.len() <= 1,
        crate::event::only_draws(draws),
        state.awaits_all(draws),
        crate::event::run(state, draws) == settled,
{
    crate::laws::runs::lemma_run_empty(state);
    match state {
        ListenerBind::Draw { .. } => {
            let drawn = choose|drawn: Option<Result<u32, Error>>| #[trigger]
                Vsock::may_draw(drawn) && settled == state.after_search(drawn);
            match drawn {
                Some(drawn) => {
                    crate::laws::runs::lemma_run_one(state, Event::Drawn(drawn));
                    assert(settled.awaits_all(seq![Event::Drawn(drawn)].drop_first()));
                    seq![Event::Drawn(drawn)]
                },
                None => Seq::empty(),
            }
        },
        _ => Seq::empty(),
    }
}

} // verus!
