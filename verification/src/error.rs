//! What can go wrong, how it reads, and how it maps onto the kinds of I/O errors.

use vstd::prelude::*;

verus! {

/// Why an operation on a virtio socket failed.
#[derive(Debug, PartialEq, Eq)]
pub enum Error {
    /// The source of random bytes gave none.
    EntropyError,
    /// A system call failed with this error number.
    SystemError(i32),
    /// An address of another family was given where a virtio socket address is needed.
    WrongAddressType,
    /// A timeout of zero was asked for.
    ZeroDurationTimeout,
    /// Port zero was asked for where no random port may stand in for it.
    ReservedPort,
}

/// The kind of I/O error that an [`Error`] becomes.
#[derive(Debug, PartialEq, Eq, Clone, Copy, Structural)]
pub enum ErrorClass {
    /// An error of no further kind, which carries the error itself.
    Other,
    /// The caller passed an unusable argument; it carries the error itself.
    InvalidInput,
    /// An error of the operating system, by its number.
    Os(i32),
}

/// The decimal digit that stands for `d`.
pub open spec fn digit(d: int) -> char
    recommends
        0 <= d < 10,
{
    ('0' as int + d) as char
}

/// The decimal notation of `n`, without leading zeros.
pub open spec fn digits(n: nat) -> Seq<char>
    decreases n,
{
    if n < 10 {
        seq![digit(n as int)]
    } else {
        digits(n / 10).push(digit((n % 10) as int))
    }
}

/// The decimal notation of `n`, with a minus sign where `n` is negative.
pub open spec fn decimal(n: int) -> Seq<char> {
    if n < 0 {
        seq!['-'] + digits((-n) as nat)
    } else {
        digits(n as nat)
    }
}

fn digit_str(d: u32) -> (s: &'static str)
    requires
        d < 10,
    ensures
        s@ == seq![digit(d as int)],
{
    proof {
        reveal_strlit("0");
        reveal_strlit("1");
        reveal_strlit("2");
        reveal_strlit("3");
        reveal_strlit("4");
        reveal_strlit("5");
        reveal_strlit("6");
        reveal_strlit("7");
        reveal_strlit("8");
        reveal_strlit("9");
    }
    match d {
        0 => "0",
        1 => "1",
        2 => "2",
        3 => "3",
        4 => "4",
        5 => "5",
        6 => "6",
        7 => "7",
        8 => "8",
        _ => "9",
    }
}

fn append_digits(text: &mut String, n: u32)
    ensures
        final(text)@ == old(text)@ + digits(n as nat),
    decreases n,
{
    if n >= 10 {
        append_digits(text, n / 10);
    }
    text.append(digit_str(n % 10));
    assert(text@ =~= old(text)@ + digits(n as nat));
}

fn append_decimal(text: &mut String, n: i32)
    ensures
        final(text)@ == old(text)@ + decimal(n as int),
{
    if n < 0 {
        proof {
            reveal_strlit("-");
        }
        text.append("-");
        let magnitude: i64 = -(n as i64);
        append_digits(text, magnitude as u32);
        assert(text@ =~= old(text)@ + decimal(n as int));
    } else {
        append_digits(text, n as u32);
    }
}

impl Error {
    /// The text that describes this error to a person.
    pub open spec fn text(self) -> Seq<char> {
        match self {
            Error::EntropyError => "failed to retrieve enough entropy"@,
            Error::SystemError(errno) => "system error "@ + decimal(errno as int),
            Error::WrongAddressType => "wrong address type provided"@,
            Error::ZeroDurationTimeout => "cannot set a zero duration timeout"@,
            Error::ReservedPort => "reserved port"@,
        }
    }

    /// The text that describes this error to a person.
    pub fn message(&self) -> (text: String)
        ensures
            text@ == self.text(),
    {
        match self {
            Error::EntropyError => "failed to retrieve enough entropy".to_owned(),
            Error::SystemError(errno) => {
                let mut text = "system error ".to_owned();
                append_decimal(&mut text, *errno);
                text
            },
            Error::WrongAddressType => "wrong address type provided".to_owned(),
            Error::ZeroDurationTimeout => "cannot set a zero duration timeout".to_owned(),
            Error::ReservedPort => "reserved port".to_owned(),
        }
    }

    /// The kind of I/O error that this error becomes.
    pub fn class(&self) -> (class: ErrorClass)
        ensures
            class == (match *self {
                Error::EntropyError => ErrorClass::Other,
                Error::SystemError(errno) => ErrorClass::Os(errno),
                Error::WrongAddressType => ErrorClass::InvalidInput,
                Error::ZeroDurationTimeout => ErrorClass::InvalidInput,
                Error::ReservedPort => ErrorClass::InvalidInput,
            }),
    {
        match self {
            Error::EntropyError => ErrorClass::Other,
            Error::SystemError(errno) => ErrorClass::Os(*errno),
            Error::WrongAddressType => ErrorClass::InvalidInput,
            Error::ZeroDurationTimeout => ErrorClass::InvalidInput,
            Error::ReservedPort => ErrorClass::InvalidInput,
        }
    }
}

} // verus!
