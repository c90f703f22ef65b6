//! Ports: which are privileged, how a random one is drawn, and what stands in for port zero.

use vstd::prelude::*;

use crate::error::Error;

use getrandom::Error as GetRandomError;

verus! {

/// The last of the ports that only a privileged process may bind.
pub const MAX_PRIVILEGED_PORT: u32 = 1023;

/// How often binding is tried again after a failure where random ports are on.
pub const BIND_RETRIES: u32 = 10;

/// What becomes of a request for port zero.
#[derive(Debug, PartialEq, Eq, Clone, Copy, Structural)]
pub enum PortPolicy {
    /// A random port stands in for it, and binding is tried again after a failure.
    Random,
    /// It is refused, and binding is tried once. Connections, whose own port is always left open,
    /// cannot be made.
    Explicit,
}

impl PortPolicy {
    /// How often binding is tried again after a failure.
    pub open spec fn spec_retries(self) -> u32 {
        match self {
            PortPolicy::Random => BIND_RETRIES,
            PortPolicy::Explicit => 0,
        }
    }

    /// How often binding is tried again after a failure.
    #[verifier::when_used_as_spec(spec_retries)]
    pub fn retries(self) -> (retries: u32)
        ensures
            retries == self.spec_retries(),
    {
        match self {
            PortPolicy::Random => BIND_RETRIES,
            PortPolicy::Explicit => 0,
        }
    }
}

/// The outside type of the errors of the random source. Nothing is known of what is inside.
#[verifier::external_type_specification]
#[verifier::external_body]
pub struct ExGetRandomError(GetRandomError);

/// Four bytes from the operating system's random source.
///
/// Calls `getrandom::getrandom` on a buffer of four bytes: it gives the bytes that the call filled
/// in, or the error that it returned. Nothing is claimed of the bytes, nor of when the call fails:
/// both are up to the system.
#[verifier::external_body]
pub(crate) fn random_bytes() -> (draw: Result<[u8; 4], GetRandomError>) {
    let mut bytes = [0u8; 4];
    match getrandom::getrandom(&mut bytes) {
        Ok(()) => Ok(bytes),
        Err(error) => Err(error),
    }
}

/// The number whose bytes, the least significant first, are `bytes`.
pub open spec fn le_value(bytes: [u8; 4]) -> int {
    bytes[0] + 0x100 * bytes[1] + 0x1_0000 * bytes[2] + 0x100_0000 * bytes[3]
}

fn from_le_bytes(bytes: [u8; 4]) -> (value: u32)
    ensures
        value == le_value(bytes),
{
    bytes[0] as u32 + 0x100 * (bytes[1] as u32) + 0x1_0000 * (bytes[2] as u32) + 0x100_0000 * (
    bytes[3] as u32)
}

/// What one draw of random bytes comes to.
#[derive(Debug, PartialEq, Eq)]
pub enum PortDraw {
    /// A port that no privilege is needed for.
    Port(u32),
    /// The bytes spell a privileged port: draw again.
    Again,
    /// There were no bytes.
    Failed(Error),
}

/// What the draw comes to: its bytes, read with the least significant first, are the port, unless
/// that is a privileged one.
pub fn port_of_draw(draw: Result<[u8; 4], GetRandomError>) -> (port: PortDraw)
    ensures
        port == (match draw {
            Ok(bytes) => if le_value(bytes) > MAX_PRIVILEGED_PORT {
                PortDraw::Port(le_value(bytes) as u32)
            } else {
                PortDraw::Again
            },
            Err(_) => PortDraw::Failed(Error::EntropyError),
        }),
{
    match draw {
        Ok(bytes) => {
            let port: u32 = from_le_bytes(bytes);
            if port <= MAX_PRIVILEGED_PORT {
                PortDraw::Again
            } else {
                PortDraw::Port(port)
            }
        },
        Err(_) => PortDraw::Failed(Error::EntropyError),
    }
}

/// The bytes spell a privileged port, which decides nothing.
pub open spec fn privileged(draw: Result<[u8; 4], GetRandomError>) -> bool {
    draw matches Ok(bytes) && le_value(bytes) <= MAX_PRIVILEGED_PORT
}

/// What a search that made these draws came to: those that spell a privileged port are passed over,
/// and the first other one decides, by its port or by its failure. Nothing is decided where there
/// is no such draw.
pub open spec fn search_result(draws: Seq<Result<[u8; 4], GetRandomError>>) -> Option<
    Result<u32, Error>,
>
    decreases draws.len(),
{
    if draws.len() == 0 {
        None
    } else if privileged(draws[0]) {
        search_result(draws.drop_first())
    } else {
        match draws[0] {
            Ok(bytes) => Some(Ok(le_value(bytes) as u32)),
            Err(_) => Some(Err(Error::EntropyError)),
        }
    }
}

/// What a search that has decided nothing comes to with one more draw is up to that draw.
pub(crate) proof fn lemma_search_one_more(
    draws: Seq<Result<[u8; 4], GetRandomError>>,
    draw: Result<[u8; 4], GetRandomError>,
)
    requires
        search_result(draws) is None,
    ensures
        search_result(draws.push(draw)) == search_result(seq![draw]),
        search_result(seq![draw]) == (if privileged(draw) {
            None
        } else {
            match draw {
                Ok(bytes) => Some(Ok::<u32, Error>(le_value(bytes) as u32)),
                Err(_) => Some(Err(Error::EntropyError)),
            }
        }),
    decreases draws.len(),
{
    assert(seq![draw].drop_first() =~= Seq::empty());
    assert(search_result(Seq::empty()) is None);
    if draws.len() == 0 {
        assert(draws.push(draw) =~= seq![draw]);
    } else {
        assert(draws.push(draw).drop_first() =~= draws.drop_first().push(draw));
        lemma_search_one_more(draws.drop_first(), draw);
    }
}

/// What a search for a random port can decide: an unprivileged port, or the error for want of
/// entropy.
pub open spec fn drawable(drawn: Result<u32, Error>) -> bool {
    match drawn {
        Ok(port) => port > MAX_PRIVILEGED_PORT,
        Err(error) => error == Error::EntropyError,
    }
}

} // verus!
