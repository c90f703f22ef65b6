//! What holds of the making of connections.

use vstd::prelude::*;

use crate::addr::{SockAddrVm, AF_VSOCK, VMADDR_CID_ANY};
use crate::error::Error;
use crate::event::{Event, Stepwise};
use crate::port::{PortPolicy, BIND_RETRIES, MAX_PRIVILEGED_PORT};
use crate::socket::{SocketBind, Vsock};
use crate::stream::Connect;
use crate::sys::SysCall;

verus! {

/// One attempt to bind a socket to a random port: what each of its steps came to, or would have
/// come to.
pub struct BindAttempt {
    pub port: Result<u32, Error>,
    pub bound: Result<i32, Error>,
}

impl BindAttempt {
    /// The error of the first step that failed, if any did.
    pub open spec fn error(self) -> Option<Error> {
        match (self.port, self.bound) {
            (Err(error), _) => Some(error),
            (_, Err(error)) => Some(error),
            _ => None,
        }
    }

    /// What happens in the attempt, up to the first step that fails.
    pub open spec fn events(self) -> Seq<Event> {
        if self.port is Err {
            seq![Event::Drawn(self.port)]
        } else {
            seq![Event::Drawn(self.port), Event::Returned(self.bound)]
        }
    }

    /// What binding the socket comes to, if it ends with this attempt.
    pub open spec fn result(self, socket: i32) -> Result<i32, Error> {
        match self.error() {
            Some(error) => Err(error),
            None => Ok(socket),
        }
    }
}

/// What happens in the attempts, one after the other.
pub open spec fn bind_events(attempts: Seq<BindAttempt>) -> Seq<Event>
    decreases attempts.len(),
{
    if attempts.len() == 0 {
        Seq::empty()
    } else {
        attempts[0].events() + bind_events(attempts.drop_first())
    }
}

/// The attempts are those that are made with so many retries: all but the last fail, and the last
/// works unless the retries are used up.
pub open spec fn exhausts(attempts: Seq<BindAttempt>, retries: u32) -> bool {
    &&& 0 < attempts.len() <= retries + 1
    &&& forall|i: int| 0 <= i < attempts.len() - 1 ==> (#[trigger] attempts[i]).error() is Some
    &&& attempts.last().error() is None || attempts.len() == retries + 1
}

proof fn lemma_bind_attempt(cid: u32, retries: u32, socket: i32, attempt: BindAttempt)
    ensures
        crate::event::run(SocketBind::Draw { cid, retries, socket }, attempt.events()) == (
        match attempt.error() {
            None => SocketBind::Done(Ok(socket)),
            Some(error) => if retries == 0 {
                SocketBind::Done(Err(error))
            } else {
                SocketBind::Draw { cid, retries: (retries - 1) as u32, socket }
            },
        }),
{
    let draw = SocketBind::Draw { cid, retries, socket };
    crate::laws::runs::lemma_run_one(draw, Event::Drawn(attempt.port));
    if attempt.port is Ok {
        let bind = draw.next(Event::Drawn(attempt.port));
        crate::laws::runs::lemma_run_one(bind, Event::Returned(attempt.bound));
        crate::laws::runs::lemma_run_first(
            draw,
            Event::Drawn(attempt.port),
            seq![Event::Returned(attempt.bound)],
        );
        assert(attempt.events() =~= seq![Event::Drawn(attempt.port)] + seq![
            Event::Returned(attempt.bound),
        ]);
    }
}

proof fn lemma_bind_attempts(cid: u32, retries: u32, socket: i32, attempts: Seq<BindAttempt>)
    requires
        exhausts(attempts, retries),
    ensures
        crate::event::run(SocketBind::Draw { cid, retries, socket }, bind_events(attempts))
            == SocketBind::Done(attempts.last().result(socket)),
    decreases attempts.len(),
{
    let draw = SocketBind::Draw { cid, retries, socket };
    let rest = attempts.drop_first();
    crate::laws::runs::law_run_in_parts(draw, attempts[0].events(), bind_events(rest));
    lemma_bind_attempt(cid, retries, socket, attempts[0]);
    if attempts.len() == 1 {
        crate::laws::runs::lemma_run_empty(SocketBind::Done(attempts.last().result(socket)));
    } else {
        assert(attempts[0].error() is Some);
        assert forall|i: int| 0 <= i < rest.len() - 1 implies (
        #[trigger] rest[i]).error() is Some by {
            assert(rest[i] == attempts[i + 1]);
        }
        lemma_bind_attempts(cid, (retries - 1) as u32, socket, rest);
    }
}

/// A socket is bound to a random port by up to eleven attempts, each with a port drawn anew: the
/// first that works ends the matter, and so does the last, with its own error where it fails.
pub proof fn law_bind_retries(socket: i32, cid: u32, attempts: Seq<BindAttempt>)
    requires
        exhausts(attempts, BIND_RETRIES),
    ensures
        crate::event::run(
            SocketBind::first(socket, cid, 0, PortPolicy::Random),
            bind_events(attempts),
        ) == SocketBind::Done(attempts.last().result(socket)),
{
    lemma_bind_attempts(cid, BIND_RETRIES, socket, attempts);
}

/// What is told of system calls that fail with these errors, one after the other.
pub open spec fn failures(errors: Seq<Error>) -> Seq<Event> {
    Seq::new(errors.len(), |i: int| Event::Returned(Err(errors[i])))
}

/// A socket is bound to a port that was asked for by as many attempts, all on that port, as there
/// are retries: after fewer failures the next attempt is due, with so many retries less, and the
/// last failure is final.
pub proof fn law_bind_to_given_port(
    socket: i32,
    cid: u32,
    port: u32,
    ports: PortPolicy,
    errors: Seq<Error>,
)
    requires
        port != 0,
        errors.len() <= ports.retries() + 1,
    ensures
        errors.len() <= ports.retries() ==> crate::event::run(
            SocketBind::first(socket, cid, port, ports),
            failures(errors),
        ) == (SocketBind::Bind {
            cid,
            port,
            drawn: false,
            retries: (ports.retries() - errors.len()) as u32,
            socket,
        }),
        errors.len() == ports.retries() + 1 ==> crate::event::run(
            SocketBind::first(socket, cid, port, ports),
            failures(errors),
        ) == SocketBind::Done(Err(errors.last())),
    decreases errors.len(),
{
    let first = SocketBind::first(socket, cid, port, ports);
    if errors.len() == 0 {
        assert(failures(errors) =~= Seq::empty());
        crate::laws::runs::lemma_run_empty(first);
    } else {
        let before = errors.drop_last();
        law_bind_to_given_port(socket, cid, port, ports, before);
        let last = Event::Returned(Err(errors.last()));
        assert(failures(errors) =~= failures(before) + seq![last]);
        crate::laws::runs::law_run_in_parts(first, failures(before), seq![last]);
        crate::laws::runs::lemma_run_one(crate::event::run(first, failures(before)), last);
    }
}

/// The first attempt on a port that was asked for that works ends the matter.
pub proof fn law_bind_to_given_port_succeeds(
    socket: i32,
    cid: u32,
    port: u32,
    ports: PortPolicy,
    errors: Seq<Error>,
    value: i32,
)
    requires
        port != 0,
        errors.len() <= ports.retries(),
    ensures
        crate::event::run(
            SocketBind::first(socket, cid, port, ports),
            failures(errors) + seq![Event::Returned(Ok(value))],
        ) == SocketBind::Done(Ok(socket)),
{
    let first = SocketBind::first(socket, cid, port, ports);
    let last = Event::Returned(Ok(value));
    law_bind_to_given_port(socket, cid, port, ports, errors);
    crate::laws::runs::law_run_in_parts(first, failures(errors), seq![last]);
    crate::laws::runs::lemma_run_one(crate::event::run(first, failures(errors)), last);
}

/// What binding a socket came to is final.
pub proof fn law_bind_done_is_final(result: Result<i32, Error>, events: Seq<Event>)
    ensures
        crate::event::run(SocketBind::Done(result), events) == SocketBind::Done(result),
    decreases events.len(),
{
    if events.len() != 0 {
        law_bind_done_is_final(result, events.drop_first());
    }
}

/// What making a connection came to is final.
pub proof fn law_connect_done_is_final(result: Result<i32, Error>, events: Seq<Event>)
    ensures
        crate::event::run(Connect::Done(result), events) == Connect::Done(result),
    decreases events.len(),
{
    if events.len() != 0 {
        law_connect_done_is_final(result, events.drop_first());
    }
}

impl SocketBind {
    /// This event is one that the state waits for.
    pub open spec fn awaits(self, event: Event) -> bool {
        match self {
            SocketBind::Draw { .. } => event is Drawn,
            SocketBind::Done(_) => false,
            _ => event is Returned,
        }
    }

    /// Each of the events is waited for when it comes.
    pub open spec fn awaits_all(self, events: Seq<Event>) -> bool
        decreases events.len(),
    {
        events.len() == 0 || (self.awaits(events[0]) && self.next(events[0]).awaits_all(
            events.drop_first(),
        ))
    }

    /// How many of the events find the socket waiting to be bound.
    pub open spec fn binds(self, events: Seq<Event>) -> nat
        decreases events.len(),
    {
        if events.len() == 0 {
            0
        } else {
            (if self is Bind { 1nat } else { 0nat }) + self.next(events[0]).binds(
                events.drop_first(),
            )
        }
    }

    /// How often the retries that are left allow the socket to be bound.
    pub open spec fn binds_left(self) -> nat {
        match self {
            SocketBind::Open { cid, port, ports } => (ports.retries() + 1) as nat,
            SocketBind::Draw { cid, retries, socket } => (retries + 1) as nat,
            SocketBind::Bind { cid, port, drawn, retries, socket } => (retries + 1) as nat,
            SocketBind::Done(_) => 0,
        }
    }

    /// The state is about the socket with this descriptor, or has failed.
    pub open spec fn is_about(self, given: i32) -> bool {
        match self {
            SocketBind::Open { .. } => false,
            SocketBind::Draw { cid, retries, socket } => socket == given,
            SocketBind::Bind { cid, port, drawn, retries, socket } => socket == given,
            SocketBind::Done(Ok(socket)) => socket == given,
            SocketBind::Done(Err(_)) => true,
        }
    }

    /// How many steps the retries that are left allow.
    pub open spec fn steps_left(self) -> nat {
        match self {
            SocketBind::Open { cid, port, ports } => (2 * ports.retries() + 3) as nat,
            SocketBind::Draw { cid, retries, socket } => (2 * retries + 2) as nat,
            SocketBind::Bind { cid, port, drawn, retries, socket } => (2 * retries + 1) as nat,
            SocketBind::Done(_) => 0,
        }
    }

    /// The state belongs to a request to bind a socket to `cid` and `port`: the port is the one
    /// asked for or, where none was, an unprivileged one, tried again at most so often; sockets
    /// have descriptors that are not negative.
    pub open spec fn serves(self, cid: u32, port: u32) -> bool {
        match self {
            SocketBind::Open { cid: c, port: p, ports } => c == cid && p == port,
            SocketBind::Draw { cid: c, retries, socket } => {
                c == cid && port == 0 && retries <= BIND_RETRIES && socket >= 0
            },
            SocketBind::Bind { cid: c, port: p, drawn, retries, socket } => {
                &&& c == cid && retries <= BIND_RETRIES && socket >= 0
                &&& drawn == (port == 0)
                &&& if drawn {
                    p > MAX_PRIVILEGED_PORT
                } else {
                    p == port
                }
            },
            SocketBind::Done(Ok(socket)) => socket >= 0,
            SocketBind::Done(Err(_)) => true,
        }
    }
}

impl Connect {
    /// The local socket waits for a random port.
    pub open spec fn is_drawing(self) -> bool {
        self matches Connect::Local { local, remote } && local is Draw
    }

    /// This event is one that the state waits for.
    pub open spec fn awaits(self, event: Event) -> bool {
        match self {
            Connect::Local { local, remote } => local.awaits(event),
            Connect::Remote { .. } => event is Returned,
            Connect::Done(_) => false,
        }
    }

    /// Each of the events is waited for when it comes.
    pub open spec fn awaits_all(self, events: Seq<Event>) -> bool
        decreases events.len(),
    {
        events.len() == 0 || (self.awaits(events[0]) && self.next(events[0]).awaits_all(
            events.drop_first(),
        ))
    }

    /// How many of the events find the local socket waiting to be bound.
    pub open spec fn binds(self, events: Seq<Event>) -> nat
        decreases events.len(),
    {
        if events.len() == 0 {
            0
        } else {
            let bind = self matches Connect::Local { local, remote } && local is Bind;
            (if bind { 1nat } else { 0nat }) + self.next(events[0]).binds(events.drop_first())
        }
    }

    /// How often the retries that are left allow the local socket to be bound.
    pub open spec fn binds_left(self) -> nat {
        match self {
            Connect::Local { local, remote } => local.binds_left(),
            _ => 0,
        }
    }

    /// The state is about the socket with this descriptor, or has failed.
    pub open spec fn is_about(self, given: i32) -> bool {
        match self {
            Connect::Local { local, remote } => local.is_about(given),
            Connect::Remote { socket, remote } => socket == given,
            Connect::Done(Ok(socket)) => socket == given,
            Connect::Done(Err(_)) => true,
        }
    }

    /// How many steps the retries that are left allow.
    pub open spec fn steps_left(self) -> nat {
        match self {
            Connect::Local { local, remote } => local.steps_left() + 1,
            Connect::Remote { .. } => 1,
            Connect::Done(_) => 0,
        }
    }

    /// The state belongs to a request to connect to `remote`, from a socket on any context
    /// identifier and an unprivileged port.
    pub open spec fn serves(self, remote: SockAddrVm) -> bool {
        match self {
            Connect::Local { local, remote: r } => {
                r == remote && local !is Done && local.serves(VMADDR_CID_ANY, 0)
            },
            Connect::Remote { socket, remote: r } => r == remote && socket >= 0,
            Connect::Done(Ok(socket)) => socket >= 0,
            Connect::Done(Err(_)) => true,
        }
    }
}

/// The binding of a socket ends: each step uses up one of those that the retries allow.
pub proof fn law_bind_ends(state: SocketBind, event: Event)
    requires
        state.awaits(event),
    ensures
        state.next(event).steps_left() < state.steps_left(),
{
}

proof fn lemma_bind_awaits_parts(state: SocketBind, before: Seq<Event>, after: Seq<Event>)
    requires
        state.awaits_all(before + after),
    ensures
        crate::event::run(state, before).awaits_all(after),
    decreases before.len(),
{
    if before.len() == 0 {
        assert(before + after =~= after);
    } else {
        assert((before + after).drop_first() =~= before.drop_first() + after);
        lemma_bind_awaits_parts(state.next(before[0]), before.drop_first(), after);
    }
}

proof fn lemma_bind_first_attempt(
    cid: u32,
    retries: u32,
    socket: i32,
    events: Seq<Event>,
) -> (attempt: BindAttempt)
    requires
        (SocketBind::Draw { cid, retries, socket }).awaits_all(events),
        crate::event::run(SocketBind::Draw { cid, retries, socket }, events) is Done,
    ensures
        0 < attempt.events().len() <= events.len(),
        attempt.events() == events.take(attempt.events().len() as int),
{
    let draw = SocketBind::Draw { cid, retries, socket };
    let port = events[0]->Drawn_0;
    let tail = events.drop_first();
    let bind = draw.next(events[0]);
    assert(bind.awaits_all(tail));
    if port is Err {
        BindAttempt { port, bound: Ok(0) }
    } else {
        assert(crate::event::run(bind, tail) is Done);
        BindAttempt { port, bound: tail[0]->Returned_0 }
    }
}

proof fn lemma_bind_run_is_attempts(
    cid: u32,
    retries: u32,
    socket: i32,
    events: Seq<Event>,
) -> (attempts: Seq<BindAttempt>)
    requires
        (SocketBind::Draw { cid, retries, socket }).awaits_all(events),
        crate::event::run(SocketBind::Draw { cid, retries, socket }, events) is Done,
    ensures
        exhausts(attempts, retries),
        events == bind_events(attempts),
    decreases retries,
{
    let draw = SocketBind::Draw { cid, retries, socket };
    let attempt = lemma_bind_first_attempt(cid, retries, socket, events);
    let rest = events.skip(attempt.events().len() as int);
    let next = crate::event::run(draw, attempt.events());
    assert(events =~= attempt.events() + rest);
    crate::laws::runs::law_run_in_parts(draw, attempt.events(), rest);
    lemma_bind_awaits_parts(draw, attempt.events(), rest);
    lemma_bind_attempt(cid, retries, socket, attempt);
    let after = if next is Done {
        Seq::empty()
    } else {
        lemma_bind_run_is_attempts(cid, (retries - 1) as u32, socket, rest)
    };
    let attempts = seq![attempt] + after;
    assert(attempts.drop_first() =~= after);
    assert(bind_events(after) =~= rest);
    assert forall|i: int| 0 <= i < attempts.len() - 1 implies (
    #[trigger] attempts[i]).error() is Some by {
        if i > 0 {
            assert(attempts[i] == after[i - 1]);
        }
    }
    attempts
}

/// Whenever the binding of a socket to a random port has come to an end, what happened were such
/// attempts: it succeeded if and only if one of them did, which was then the last; else eleven were
/// made, and the error is that of the last.
pub proof fn law_bind_comes_of_attempts(
    socket: i32,
    cid: u32,
    events: Seq<Event>,
) -> (attempts: Seq<BindAttempt>)
    requires
        SocketBind::first(socket, cid, 0, PortPolicy::Random).awaits_all(events),
        crate::event::run(SocketBind::first(socket, cid, 0, PortPolicy::Random), events) is Done,
    ensures
        exhausts(attempts, BIND_RETRIES),
        events == bind_events(attempts),
        crate::event::run(SocketBind::first(socket, cid, 0, PortPolicy::Random), events)
            == SocketBind::Done(attempts.last().result(socket)),
{
    let attempts = lemma_bind_run_is_attempts(cid, BIND_RETRIES, socket, events);
    law_bind_retries(socket, cid, attempts);
    attempts
}

/// Each search for a random port that fails for want of entropy costs the binding of a socket one
/// attempt and nothing more: after up to ten of them the next search is due, and the eleventh is
/// final. No system call is waited for on the way.
pub proof fn law_bind_without_entropy(socket: i32, cid: u32, searches: nat)
    requires
        searches <= BIND_RETRIES + 1,
    ensures
        crate::event::run(
            SocketBind::first(socket, cid, 0, PortPolicy::Random),
            crate::laws::runs::fruitless(searches),
        ) == (if searches <= BIND_RETRIES {
            SocketBind::Draw { cid, retries: (BIND_RETRIES - searches) as u32, socket }
        } else {
            SocketBind::Done(Err(Error::EntropyError))
        }),
        crate::event::run(
            SocketBind::first(socket, cid, 0, PortPolicy::Random),
            crate::laws::runs::fruitless(searches),
        ).waits_for() is None,
    decreases searches,
{
    let first = SocketBind::first(socket, cid, 0, PortPolicy::Random);
    if searches == 0 {
        assert(crate::laws::runs::fruitless(0) =~= Seq::empty());
        crate::laws::runs::lemma_run_empty(first);
    } else {
        let before = crate::laws::runs::fruitless((searches - 1) as nat);
        let last = Event::Drawn(Err(Error::EntropyError));
        law_bind_without_entropy(socket, cid, (searches - 1) as nat);
        assert(crate::laws::runs::fruitless(searches) =~= before + seq![last]);
        crate::laws::runs::law_run_in_parts(first, before, seq![last]);
        crate::laws::runs::lemma_run_one(crate::event::run(first, before), last);
    }
}

/// A bound socket is made in two parts. Where none can be opened, that error is final, and neither
/// is a port searched for nor anything bound. Where one is opened, it is refused without random
/// ports; with them it is bound to one by as many attempts as it takes and the retries allow, and
/// is the result unless the last of them failed.
pub proof fn law_new_socket_result(
    ports: PortPolicy,
    opened: Result<i32, Error>,
    attempts: Seq<BindAttempt>,
)
    requires
        exhausts(attempts, BIND_RETRIES),
    ensures
        ({
            let begun = SocketBind::opening(ports);
            let open = seq![Event::Returned(opened)];
            match (opened, ports) {
                (Err(error), _) => crate::event::run(begun, open) == SocketBind::Done(Err(error)),
                (Ok(_), PortPolicy::Explicit) => crate::event::run(begun, open)
                    == SocketBind::Done(Err(Error::ReservedPort)),
                (Ok(socket), PortPolicy::Random) => crate::event::run(
                    begun,
                    open + bind_events(attempts),
                ) == SocketBind::Done(attempts.last().result(socket)),
            }
        }),
{
    let begun = SocketBind::opening(ports);
    crate::laws::runs::lemma_run_one(begun, Event::Returned(opened));
    if let Ok(socket) = opened {
        crate::laws::runs::lemma_run_first(begun, Event::Returned(opened), bind_events(attempts));
        law_bind_retries(socket, VMADDR_CID_ANY, attempts);
    }
}

/// A socket is bound at most once more often than there are retries: eleven times with random
/// ports, once without.
pub proof fn law_bind_binds(
    socket: i32,
    cid: u32,
    port: u32,
    ports: PortPolicy,
    events: Seq<Event>,
)
    requires
        SocketBind::first(socket, cid, port, ports).awaits_all(events),
    ensures
        SocketBind::first(socket, cid, port, ports).binds(events) <= ports.retries() + 1,
{
    lemma_bind_binds(SocketBind::first(socket, cid, port, ports), events);
}

proof fn lemma_bind_binds(state: SocketBind, events: Seq<Event>)
    requires
        state.awaits_all(events),
    ensures
        state.binds(events) <= state.binds_left(),
    decreases events.len(),
{
    if events.len() != 0 {
        lemma_bind_binds(state.next(events[0]), events.drop_first());
    }
}

/// The making of a connection binds its socket at most eleven times with random ports, and not at
/// all without.
pub proof fn law_connect_binds(ports: PortPolicy, remote: SockAddrVm, events: Seq<Event>)
    requires
        (Connect::Local { local: SocketBind::opening(ports), remote }).awaits_all(events),
    ensures
        (Connect::Local { local: SocketBind::opening(ports), remote }).binds(events) <= (
        match ports {
            PortPolicy::Random => BIND_RETRIES + 1,
            PortPolicy::Explicit => 0,
        }),
{
    let begun = Connect::Local { local: SocketBind::opening(ports), remote };
    if events.len() != 0 {
        lemma_connect_binds(begun.next(events[0]), events.drop_first());
    }
}

proof fn lemma_connect_binds(state: Connect, events: Seq<Event>)
    requires
        state.awaits_all(events),
    ensures
        state.binds(events) <= state.binds_left(),
    decreases events.len(),
{
    if events.len() != 0 {
        lemma_connect_binds(state.next(events[0]), events.drop_first());
    }
}

/// Whatever happens, the binding of a socket stays with the descriptor that it was given.
pub proof fn law_bind_keeps_socket(
    socket: i32,
    cid: u32,
    port: u32,
    ports: PortPolicy,
    events: Seq<Event>,
)
    ensures
        crate::event::run(SocketBind::first(socket, cid, port, ports), events).is_about(socket),
        crate::event::run(SocketBind::first(socket, cid, port, ports), events).waits_for() matches
            Some(call) ==> call is Bind && call->Bind_socket == socket,
{
    lemma_bind_keeps_socket(SocketBind::first(socket, cid, port, ports), socket, events);
}

proof fn lemma_bind_keeps_socket(state: SocketBind, socket: i32, events: Seq<Event>)
    requires
        state.is_about(socket),
    ensures
        crate::event::run(state, events).is_about(socket),
    decreases events.len(),
{
    if events.len() != 0 {
        lemma_bind_keeps_socket(state.next(events[0]), socket, events.drop_first());
    }
}

/// Whatever happens, the making of a connection stays with the descriptor that was opened for it.
pub proof fn law_connect_keeps_socket(
    ports: PortPolicy,
    remote: SockAddrVm,
    socket: i32,
    events: Seq<Event>,
)
    ensures
        crate::event::run(
            Connect::Local { local: SocketBind::opening(ports), remote },
            seq![Event::Returned(Ok(socket))] + events,
        ).is_about(socket),
{
    let begun = Connect::Local { local: SocketBind::opening(ports), remote };
    let opened = Event::Returned(Ok(socket));
    crate::laws::runs::lemma_run_first(begun, opened, events);
    lemma_connect_keeps_socket(begun.next(opened), socket, events);
}

proof fn lemma_connect_keeps_socket(state: Connect, socket: i32, events: Seq<Event>)
    requires
        state.is_about(socket),
    ensures
        crate::event::run(state, events).is_about(socket),
    decreases events.len(),
{
    if events.len() != 0 {
        lemma_connect_keeps_socket(state.next(events[0]), socket, events.drop_first());
    }
}

/// The making of a connection ends: there are no more steps than the retries allow.
pub proof fn law_connect_ends(state: Connect, events: Seq<Event>)
    requires
        state.awaits_all(events),
    ensures
        events.len() <= state.steps_left(),
        events.len() == state.steps_left() ==> crate::event::run(state, events) is Done,
    decreases events.len(),
{
    if events.len() != 0 {
        if let Connect::Local { local, remote } = state {
            law_bind_ends(local, events[0]);
        }
        law_connect_ends(state.next(events[0]), events.drop_first());
    }
}

/// Whatever happens, the binding of a socket stays with what was asked for.
pub proof fn law_bind_serves_request(state: SocketBind, event: Event, cid: u32, port: u32)
    requires
        state.serves(cid, port),
        event.possible(),
    ensures
        state.next(event).serves(cid, port),
        state.waits_for() matches Some(SysCall::Bind { socket, addr }) ==> addr.svm_family
            == AF_VSOCK && addr.svm_cid == cid && (if port == 0 {
            addr.svm_port > MAX_PRIVILEGED_PORT
        } else {
            addr.svm_port == port
        }),
{
}

/// The drawing of ports, too, stays with what was asked for. It leads to a system call, unless the
/// search failed, which costs a retry and, where none is left, is the end, or was interrupted, which
/// costs nothing.
pub proof fn law_bind_settling_serves_request(
    state: SocketBind,
    settled: SocketBind,
    cid: u32,
    port: u32,
)
    requires
        state.serves(cid, port),
        state.settles_to(settled),
    ensures
        settled.serves(cid, port),
        settled is Done && state !is Done ==> {
            &&& state matches SocketBind::Draw { cid: _, retries, socket: _ } && retries == 0
            &&& settled == SocketBind::Done(Err(Error::EntropyError))
        },
        settled.waits_for() is None <==> settled is Done || settled is Draw,
        settled is Draw ==> {
            ||| Vsock::may_draw(None) && settled == state
            ||| Vsock::may_draw(Some(Err(Error::EntropyError))) && settled == state.next(
                Event::Drawn(Err(Error::EntropyError)),
            )
        },
{
}

/// Whatever happens, the making of a connection stays with what was asked for: the only address
/// that a socket is connected to is the one of the request, and the only addresses that a socket
/// is bound to are unprivileged ports on any context identifier.
pub proof fn law_connect_serves_request(ports: PortPolicy, remote: SockAddrVm, events: Seq<Event>)
    requires
        forall|i: int| 0 <= i < events.len() ==> (#[trigger] events[i]).possible(),
    ensures
        ({
            let state = crate::event::run(
                Connect::Local { local: SocketBind::opening(ports), remote },
                events,
            );
            &&& state.serves(remote)
            &&& match state.waits_for() {
                Some(SysCall::Bind { socket, addr }) => addr.svm_cid == VMADDR_CID_ANY
                    && addr.svm_port > MAX_PRIVILEGED_PORT,
                Some(SysCall::Connect { socket, addr }) => addr == remote,
                Some(SysCall::StreamSocket { family, cloexec, protocol }) => family == AF_VSOCK,
                Some(_) => false,
                None => true,
            }
        }),
{
    lemma_connect_serves(
        Connect::Local { local: SocketBind::opening(ports), remote },
        remote,
        events,
    );
}

proof fn lemma_connect_serves(state: Connect, remote: SockAddrVm, events: Seq<Event>)
    requires
        state.serves(remote),
        forall|i: int| 0 <= i < events.len() ==> (#[trigger] events[i]).possible(),
    ensures
        crate::event::run(state, events).serves(remote),
    decreases events.len(),
{
    if events.len() != 0 {
        let rest = events.drop_first();
        assert(events[0].possible());
        if let Connect::Local { local, remote } = state {
            law_bind_serves_request(local, events[0], VMADDR_CID_ANY, 0);
        }
        assert forall|i: int| 0 <= i < rest.len() implies (#[trigger] rest[i]).possible() by {
            assert(rest[i] == events[i + 1]);
        }
        lemma_connect_serves(state.next(events[0]), remote, rest);
    }
}

/// The drawing of ports for a connection, too, stays with what was asked for. It leads to a system
/// call, unless the search failed, which costs a retry and, where none is left, is the end, or was
/// interrupted, which costs nothing.
pub proof fn law_connect_settling_serves_request(
    state: Connect,
    settled: Connect,
    remote: SockAddrVm,
)
    requires
        state.serves(remote),
        state.settles_to(settled),
    ensures
        settled.serves(remote),
        settled is Done && state !is Done ==> {
            &&& state matches Connect::Local { local, remote: _ }
            &&& local matches SocketBind::Draw { cid: _, retries, socket: _ } && retries == 0
            &&& settled == Connect::Done(Err(Error::EntropyError))
        },
        settled.waits_for() is None <==> settled is Done || settled.is_drawing(),
        settled.is_drawing() ==> {
            ||| Vsock::may_draw(None) && settled == state
            ||| Vsock::may_draw(Some(Err(Error::EntropyError))) && settled == state.next(
                Event::Drawn(Err(Error::EntropyError)),
            )
        },
{
}

proof fn lemma_connect_attempt(
    cid: u32,
    retries: u32,
    socket: i32,
    remote: SockAddrVm,
    attempt: BindAttempt,
)
    ensures
        crate::event::run(
            Connect::Local { local: SocketBind::Draw { cid, retries, socket }, remote },
            attempt.events(),
        ) == Connect::with_local(
            crate::event::run(SocketBind::Draw { cid, retries, socket }, attempt.events()),
            remote,
        ),
{
    let draw = Connect::Local { local: SocketBind::Draw { cid, retries, socket }, remote };
    lemma_bind_attempt(cid, retries, socket, attempt);
    crate::laws::runs::lemma_run_one(draw, Event::Drawn(attempt.port));
    if attempt.port is Ok {
        let bind = draw.next(Event::Drawn(attempt.port));
        crate::laws::runs::lemma_run_one(bind, Event::Returned(attempt.bound));
        crate::laws::runs::lemma_run_first(
            draw,
            Event::Drawn(attempt.port),
            seq![Event::Returned(attempt.bound)],
        );
        assert(attempt.events() =~= seq![Event::Drawn(attempt.port)] + seq![
            Event::Returned(attempt.bound),
        ]);
    }
}

proof fn lemma_connect_attempts(
    cid: u32,
    retries: u32,
    socket: i32,
    remote: SockAddrVm,
    attempts: Seq<BindAttempt>,
)
    requires
        exhausts(attempts, retries),
    ensures
        crate::event::run(
            Connect::Local { local: SocketBind::Draw { cid, retries, socket }, remote },
            bind_events(attempts),
        ) == Connect::with_local(SocketBind::Done(attempts.last().result(socket)), remote),
    decreases attempts.len(),
{
    let draw = Connect::Local { local: SocketBind::Draw { cid, retries, socket }, remote };
    let rest = attempts.drop_first();
    crate::laws::runs::law_run_in_parts(draw, attempts[0].events(), bind_events(rest));
    lemma_bind_attempt(cid, retries, socket, attempts[0]);
    lemma_connect_attempt(cid, retries, socket, remote, attempts[0]);
    if attempts.len() == 1 {
        crate::laws::runs::lemma_run_empty(crate::event::run(draw, attempts[0].events()));
    } else {
        assert(attempts[0].error() is Some);
        assert forall|i: int| 0 <= i < rest.len() - 1 implies (
        #[trigger] rest[i]).error() is Some by {
            assert(rest[i] == attempts[i + 1]);
        }
        lemma_connect_attempts(cid, (retries - 1) as u32, socket, remote, rest);
    }
}

/// A connection is made in three parts: a socket is opened, bound to a random port by as many
/// attempts as it takes and the retries allow, and connected. The first part that fails ends the
/// matter with its error; else the opened socket is the connection.
pub proof fn law_connect_result(
    remote: SockAddrVm,
    opened: Result<i32, Error>,
    attempts: Seq<BindAttempt>,
    connected: Result<i32, Error>,
)
    requires
        exhausts(attempts, BIND_RETRIES),
    ensures
        ({
            let begun = Connect::Local { local: SocketBind::opening(PortPolicy::Random), remote };
            let open = seq![Event::Returned(opened)];
            let bind = open + bind_events(attempts);
            let connect = bind + seq![Event::Returned(connected)];
            match (opened, attempts.last().error(), connected) {
                (Err(error), _, _) => crate::event::run(begun, open) == Connect::Done(Err(error)),
                (_, Some(error), _) => crate::event::run(begun, bind) == Connect::Done(Err(error)),
                (_, _, Err(error)) => crate::event::run(begun, connect) == Connect::Done(
                    Err(error),
                ),
                (Ok(socket), _, _) => crate::event::run(begun, connect) == Connect::Done(
                    Ok(socket),
                ),
            }
        }),
{
    let begun = Connect::Local { local: SocketBind::opening(PortPolicy::Random), remote };
    let open = seq![Event::Returned(opened)];
    let bind = open + bind_events(attempts);
    crate::laws::runs::lemma_run_one(begun, Event::Returned(opened));
    if let Ok(socket) = opened {
        lemma_connect_attempts(VMADDR_CID_ANY, BIND_RETRIES, socket, remote, attempts);
        crate::laws::runs::law_run_in_parts(begun, open, bind_events(attempts));
        crate::laws::runs::law_run_in_parts(begun, bind, seq![Event::Returned(connected)]);
        crate::laws::runs::lemma_run_one(
            crate::event::run(begun, bind),
            Event::Returned(connected),
        );
    }
}

proof fn lemma_connect_local_part(
    local: SocketBind,
    remote: SockAddrVm,
    events: Seq<Event>,
) -> (part: nat)
    requires
        local !is Done,
        (Connect::Local { local, remote }).awaits_all(events),
        crate::event::run(Connect::Local { local, remote }, events) is Done,
    ensures
        part <= events.len(),
        local.awaits_all(events.take(part as int)),
        crate::event::run(local, events.take(part as int)) is Done,
        ({
            let connect = Connect::with_local(
                crate::event::run(local, events.take(part as int)),
                remote,
            );
            &&& connect.awaits_all(events.skip(part as int))
            &&& crate::event::run(connect, events.skip(part as int)) == crate::event::run(
                Connect::Local { local, remote },
                events,
            )
        }),
    decreases events.len(),
{
    let next = local.next(events[0]);
    let rest = events.drop_first();
    if next is Done {
        assert(events.take(1) =~= seq![events[0]]);
        crate::laws::runs::lemma_run_one(local, events[0]);
        assert(events.skip(1) =~= rest);
        assert(next.awaits_all(events.take(1).drop_first()));
        1
    } else {
        let part = lemma_connect_local_part(next, remote, rest);
        let whole = part + 1;
        assert(events.take(whole as int).drop_first() =~= rest.take(part as int));
        assert(events.skip(whole as int) =~= rest.skip(part as int));
        whole
    }
}

/// Whenever the making of a connection with random ports has come to an end, what happened were such
/// parts: none is left out that is due, and none is added.
pub proof fn law_connect_comes_of_parts(remote: SockAddrVm, events: Seq<Event>) -> (parts: (
    Result<i32, Error>,
    Seq<BindAttempt>,
    Result<i32, Error>,
))
    requires
        (Connect::Local {
            local: SocketBind::opening(PortPolicy::Random),
            remote,
        }).awaits_all(events),
        crate::event::run(
            Connect::Local { local: SocketBind::opening(PortPolicy::Random), remote },
            events,
        ) is Done,
    ensures
        ({
            let (opened, attempts, connected) = parts;
            let open = seq![Event::Returned(opened)];
            let bind = open + bind_events(attempts);
            let connect = bind + seq![Event::Returned(connected)];
            &&& exhausts(attempts, BIND_RETRIES)
            &&& events == (if opened is Err {
                open
            } else if attempts.last().error() is Some {
                bind
            } else {
                connect
            })
        }),
{
    let local = SocketBind::opening(PortPolicy::Random);
    let unused = seq![BindAttempt { port: Ok(0), bound: Ok(0) }];
    let part = lemma_connect_local_part(local, remote, events);
    let head = events.take(part as int);
    let tail = events.skip(part as int);
    let opened = head[0]->Returned_0;
    let connect = Connect::with_local(crate::event::run(local, head), remote);
    assert(events =~= head + tail);
    assert(head =~= seq![Event::Returned(opened)] + head.drop_first());
    match opened {
        Err(error) => {
            law_bind_done_is_final(Err(error), head.drop_first());
            assert(head.drop_first().len() == 0) by {
                assert(SocketBind::Done(Err(error)).awaits_all(head.drop_first()));
            }
            assert(events =~= seq![Event::Returned(opened)]);
            (opened, unused, opened)
        },
        Ok(socket) => {
            let attempts = law_bind_comes_of_attempts(socket, VMADDR_CID_ANY, head.drop_first());
            if attempts.last().error() is Some {
                assert(events =~= head);
                (opened, attempts, opened)
            } else {
                let connected = tail[0]->Returned_0;
                let done = connect.next(tail[0]);
                assert(done.awaits_all(tail.drop_first()));
                assert(tail =~= seq![Event::Returned(connected)]);
                (opened, attempts, connected)
            }
        },
    }
}

/// Where no random port may stand in for port zero, a connection that would need one is refused as
/// soon as its socket is open.
pub proof fn law_connect_needs_random_port(remote: SockAddrVm, socket: i32)
    ensures
        (Connect::Local {
            local: SocketBind::opening(PortPolicy::Explicit),
            remote,
        }).next(Event::Returned(Ok(socket))) == Connect::Done(Err(Error::ReservedPort)),
{
}

/// To settle is to draw a port, at most one, and only where one is waited for: what is left then is
/// what a run through the draw, and nothing else, leads to. What holds of runs therefore holds of
/// operations that settle on their way.
pub proof fn law_bind_settling_is_drawing(
    state: SocketBind,
    settled: SocketBind,
) -> (draws: Seq<Event>)
    requires
        state.settles_to(settled),
    ensures
        draws.len() <= 1,
        crate::event::only_draws(draws),
        state.awaits_all(draws),
        crate::event::run(state, draws) == settled,
{
    crate::laws::runs::lemma_run_empty(state);
    match state {
        SocketBind::Draw { .. } => {
            let drawn = choose|drawn: Option<Result<u32, Error>>| #[trigger]
                Vsock::may_draw(drawn) && settled == state.after_search(drawn);
            match drawn {
                Some(drawn) => {
                    crate::laws::runs::lemma_run_one(state, Event::Drawn(drawn));
                    assert(settled.awaits_all(seq![Event::Drawn(drawn)].drop_first()));
                    seq![Event::Drawn(drawn)]
                },
                None => Seq::empty(),
            }
        },
        _ => Seq::empty(),
    }
}

/// To settle a connection, too, is to draw at most one port.
pub proof fn law_connect_settling_is_drawing(state: Connect, settled: Connect) -> (draws: Seq<
    Event,
>)
    requires
        state.settles_to(settled),
        state matches Connect::Local { local, remote } ==> local !is Done,
    ensures
        draws.len() <= 1,
        crate::event::only_draws(draws),
        state.awaits_all(draws),
        crate::event::run(state, draws) == settled,
{
    crate::laws::runs::lemma_run_empty(state);
    match state {
        Connect::Local { local, remote } => {
            let bound = choose|bound: SocketBind| #[trigger]
                local.settles_to(bound) && settled == Connect::with_local(bound, remote);
            let draws = law_bind_settling_is_drawing(local, bound);
            if draws.len() == 0 {
                crate::laws::runs::lemma_run_empty(local);
                assert(draws =~= Seq::empty());
            } else {
                assert(draws =~= seq![draws[0]]);
                crate::laws::runs::lemma_run_one(local, draws[0]);
                crate::laws::runs::lemma_run_one(state, draws[0]);
                assert(settled.awaits_all(draws.drop_first()));
            }
            draws
        },
        _ => Seq::empty(),
    }
}

} // verus!
