//! What holds of the search for random ports.

use vstd::prelude::*;

use getrandom::Error as GetRandomError;

use crate::error::Error;
use crate::port::{port_of_draw, PortDraw, PortPolicy};
use crate::socket::Vsock;

verus! {

/// The bytes are those of the port, the least significant first.
pub open spec fn spells(bytes: [u8; 4], port: int) -> bool {
    &&& bytes@[0] == port % 256
    &&& bytes@[1] == (port / 256) % 256
    &&& bytes@[2] == (port / 65536) % 256
    &&& bytes@[3] == port / 16777216
}

/// The draw gave bytes, and those of a privileged port.
pub open spec fn passed_over(draw: Result<[u8; 4], GetRandomError>) -> bool {
    draw matches Ok(bytes) && exists|port: int| 0 <= port <= 1023 && #[trigger] spells(bytes, port)
}

proof fn lemma_spells(bytes: [u8; 4])
    ensures
        spells(bytes, crate::port::le_value(bytes)),
{
    let (a, b, c, d) = (
        bytes@[0] as int,
        bytes@[1] as int,
        bytes@[2] as int,
        bytes@[3] as int,
    );
    let value = a + 0x100 * b + 0x1_0000 * c + 0x100_0000 * d;
    assert(crate::port::le_value(bytes) == value);
    assert(value == 256 * (b + 256 * c + 65536 * d) + a);
    assert(value / 256 == b + 256 * c + 65536 * d);
    assert(value / 65536 == c + 256 * d);
    assert(value / 16777216 == d);
}

/// A draw comes to the port whose bytes it gave, the least significant first, unless that is a
/// privileged one, up to 1023, which has another draw made. A draw that failed is for want of
/// entropy.
pub proof fn law_draw_spells_port(draw: Result<[u8; 4], GetRandomError>, port: PortDraw)
    requires
        call_ensures(port_of_draw, (draw,), port),
    ensures
        match port {
            PortDraw::Port(found) => {
                found > 1023 && (draw matches Ok(bytes) && spells(bytes, found as int))
            },
            PortDraw::Again => passed_over(draw),
            PortDraw::Failed(error) => draw is Err && error == Error::EntropyError,
        },
{
    if let Ok(bytes) = draw {
        lemma_spells(bytes);
    }
}

proof fn lemma_search(draws: Seq<Result<[u8; 4], GetRandomError>>)
    ensures
        crate::port::search_result(draws) is None ==> forall|i: int|
            0 <= i < draws.len() ==> passed_over(#[trigger] draws[i]),
    decreases draws.len(),
{
    if crate::port::search_result(draws) is None && draws.len() > 0 {
        let rest = draws.drop_first();
        lemma_search(rest);
        if let Ok(bytes) = draws[0] {
            lemma_spells(bytes);
        }
        assert forall|i: int| 0 <= i < draws.len() implies passed_over(#[trigger] draws[i]) by {
            if i > 0 {
                assert(draws[i] == rest[i - 1]);
            }
        }
    }
}

/// A search draws from the random source until something other than the bytes of a privileged port
/// comes: the bytes of another port, which is found, or a failure, which is for want of entropy. It
/// is interrupted, with nothing decided, only after 2^64 - 1 privileged ports.
pub proof fn law_search_takes_first_port(drawn: Option<Result<u32, Error>>) -> (draws: Seq<
    Result<[u8; 4], GetRandomError>,
>)
    requires
        call_ensures(Vsock::gen_rand_port, (), drawn),
    ensures
        Vsock::source_gives(draws),
        forall|i: int| 0 <= i < draws.len() - 1 ==> passed_over(#[trigger] draws[i]),
        match drawn {
            Some(Ok(port)) => {
                &&& port > 1023 && draws.len() > 0
                &&& draws.last() matches Ok(bytes)
                &&& spells(bytes, port as int)
            },
            Some(Err(error)) => {
                error == Error::EntropyError && draws.len() > 0 && draws.last() is Err
            },
            None => draws.len() == u64::MAX && passed_over(draws.last()),
        },
{
    let draws = choose|draws: Seq<Result<[u8; 4], GetRandomError>>|
        {
            &&& #[trigger] Vsock::source_gives(draws)
            &&& drawn == crate::port::search_result(draws)
            &&& match drawn {
                Some(_) => draws.len() > 0 && crate::port::search_result(draws.drop_last()) is None,
                None => draws.len() == u64::MAX,
            }
        };
    let before = draws.drop_last();
    if drawn is Some {
        lemma_search(before);
        crate::port::lemma_search_one_more(before, draws.last());
        assert(before.push(draws.last()) =~= draws);
        if let Ok(bytes) = draws.last() {
            lemma_spells(bytes);
        }
    } else {
        lemma_search(draws);
    }
    assert forall|i: int| 0 <= i < draws.len() - 1 implies passed_over(#[trigger] draws[i]) by {
        if drawn is Some {
            assert(draws[i] == before[i]);
        }
    }
    draws
}

/// Binding is tried again ten times after a failure with random ports, and not at all without.
pub proof fn law_retries(ports: PortPolicy, retries: u32)
    requires
        call_ensures(PortPolicy::retries, (ports,), retries),
    ensures
        retries == (match ports {
            PortPolicy::Random => 10u32,
            PortPolicy::Explicit => 0u32,
        }),
{
}

} // verus!
