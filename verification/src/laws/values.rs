//! What holds of addresses, timeouts, codes and random ports.

use vstd::prelude::*;

use getrandom::Error as GetRandomError;

use crate::addr::{AnyAddr, SockAddr, SockAddrVm};
use crate::error::Error;
use crate::sys::Shutdown;
use crate::time::{Interval, TimeVal};

verus! {

/// An address made of a context identifier and a port has just these, belongs to the family of
/// virtio sockets, and is accepted as such.
pub proof fn law_addr_of_parts(cid: u32, port: u32)
    ensures
        SockAddrVm::of(cid, port).svm_cid == cid,
        SockAddrVm::of(cid, port).svm_port == port,
        <SockAddr as vstd::std_specs::convert::TryFromSpec<SockAddrVm>>::try_from_spec(
            SockAddrVm::of(cid, port),
        ) == Ok::<SockAddr, ()>(SockAddr::of(SockAddrVm::of(cid, port))),
{
}

/// Addresses are equal just where their context identifiers and ports are, if they were made of
/// these.
pub proof fn law_addr_parts_tell_apart(cid1: u32, port1: u32, cid2: u32, port2: u32)
    ensures
        SockAddrVm::of(cid1, port1) == SockAddrVm::of(cid2, port2) <==> cid1 == cid2 && port1
            == port2,
{
}

/// A virtio socket address that is passed on as an address of any family comes back as it was.
pub proof fn law_addr_round_trip(addr: SockAddr)
    ensures
        <SockAddr as vstd::std_specs::convert::TryFromSpec<AnyAddr>>::try_from_spec(
            <AnyAddr as vstd::std_specs::convert::FromSpec<SockAddr>>::from_spec(addr),
        ) == Ok::<SockAddr, ()>(addr),
{
    SockAddr::lemma_fields(addr, addr@);
}

/// A timeout never reads as the lack of one: it has seconds or microseconds, and the microseconds
/// make up less than a second.
pub proof fn law_timeout_is_none_or_some(span: Interval)
    requires
        span.wf(),
        span.length() != 0,
    ensures
        span.timeval() != TimeVal::none(),
        span.timeval().length() > 0,
        span.timeval().tv_sec >= 0,
        0 <= span.timeval().tv_usec < 1_000_000,
{
}

/// A timeout keeps its whole microseconds, and lasts one where there are none, unless it has more
/// seconds than the kernel can count.
pub proof fn law_timeout_keeps_microseconds(span: Interval)
    requires
        span.wf(),
        span.length() != 0,
        span.secs <= libc::time_t::MAX,
    ensures
        span.timeval().length() == (if span.length() < 1000 {
            1
        } else {
            span.length() / 1000
        }),
{
}

/// A timeout of more seconds than the kernel can count lasts as many as it can.
pub proof fn law_timeout_saturates(span: Interval)
    requires
        span.secs > libc::time_t::MAX,
    ensures
        span.timeval().tv_sec == libc::time_t::MAX,
{
}

/// A longer timeout never becomes a shorter one, unless it has more seconds than the kernel can
/// count.
pub proof fn law_timeout_order(shorter: Interval, longer: Interval)
    requires
        shorter.wf(),
        longer.wf(),
        0 < shorter.length() <= longer.length(),
        longer.secs <= libc::time_t::MAX,
    ensures
        shorter.timeval().length() <= longer.timeval().length(),
{
    law_timeout_keeps_microseconds(shorter);
    law_timeout_keeps_microseconds(longer);
}

/// The parts of a connection that can be shut down have codes of their own.
pub proof fn law_shutdown_codes_differ(a: Shutdown, b: Shutdown)
    ensures
        a.code() == b.code() <==> a == b,
{
}

proof fn lemma_privileged_words(words: Seq<Result<[u8; 4], GetRandomError>>)
    requires
        forall|i: int| 0 <= i < words.len() ==> crate::port::privileged(#[trigger] words[i]),
    ensures
        crate::port::search_result(words) is None,
    decreases words.len(),
{
    if words.len() != 0 {
        let rest = words.drop_first();
        assert(crate::port::privileged(words[0]));
        assert forall|i: int| 0 <= i < rest.len() implies crate::port::privileged(
            #[trigger] rest[i],
        ) by {
            assert(rest[i] == words[i + 1]);
        }
        lemma_privileged_words(rest);
    }
}

/// Of the words that the random source gives, the first that does not spell a privileged port
/// decides a search: its port is the result, or the lack of entropy, where the source failed. No
/// word before it decides anything, and none after it is needed.
pub proof fn law_first_unprivileged_word_decides(
    words: Seq<Result<[u8; 4], GetRandomError>>,
    j: int,
    k: int,
)
    requires
        0 <= j < words.len(),
        forall|i: int| 0 <= i < j ==> crate::port::privileged(#[trigger] words[i]),
        !crate::port::privileged(words[j]),
        0 <= k <= words.len(),
    ensures
        crate::port::search_result(words.take(k)) == (if k <= j {
            None
        } else {
            Some(
                match words[j] {
                    Ok(bytes) => Ok::<u32, Error>(crate::port::le_value(bytes) as u32),
                    Err(_) => Err(Error::EntropyError),
                },
            )
        }),
    decreases j,
{
    let read = words.take(k);
    if k <= j {
        assert forall|i: int| 0 <= i < read.len() implies crate::port::privileged(
            #[trigger] read[i],
        ) by {
            assert(read[i] == words[i]);
        }
        lemma_privileged_words(read);
    } else if j > 0 {
        let rest = words.drop_first();
        assert(crate::port::privileged(words[0]));
        assert forall|i: int| 0 <= i < j - 1 implies crate::port::privileged(
            #[trigger] rest[i],
        ) by {
            assert(rest[i] == words[i + 1]);
        }
        assert(read.drop_first() =~= rest.take(k - 1));
        law_first_unprivileged_word_decides(rest, j - 1, k - 1);
    }
}

} // verus!
