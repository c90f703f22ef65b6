//! What holds of the texts and kinds of errors.

use vstd::prelude::*;

use crate::error::{Error, ErrorClass};

verus! {

/// The text is made of decimal digits, at least one, and does not begin with a zero unless that is
/// all of it.
pub open spec fn is_numeral(text: Seq<char>) -> bool {
    &&& text.len() > 0
    &&& forall|i: int| 0 <= i < text.len() ==> '0' <= #[trigger] text[i] <= '9'
    &&& text[0] == '0' ==> text.len() == 1
}

/// The number that the digits spell, the most significant first.
pub open spec fn spelled(text: Seq<char>) -> int
    decreases text.len(),
{
    if text.len() == 0 {
        0
    } else {
        10 * spelled(text.drop_last()) + (text.last() as int - '0' as int)
    }
}

proof fn lemma_digits(n: nat)
    ensures
        is_numeral(crate::error::digits(n)),
        spelled(crate::error::digits(n)) == n,
        crate::error::digits(n)[0] == '0' ==> n == 0,
    decreases n,
{
    let text = crate::error::digits(n);
    if n < 10 {
        assert(text.drop_last() =~= Seq::empty());
        assert(spelled(text.drop_last()) == 0);
    } else {
        lemma_digits(n / 10);
        assert(text.drop_last() =~= crate::error::digits(n / 10));
        assert(text[0] == crate::error::digits(n / 10)[0]);
    }
}

/// The text of a system error ends with its number in decimal notation, from which it can be read
/// back: with a minus sign just where it is negative, and without leading zeros. Every other error
/// has a text of its own.
pub proof fn law_messages(error: Error, text: String) -> (numeral: Seq<char>)
    requires
        call_ensures(Error::message, (&error,), text),
    ensures
        match error {
            Error::EntropyError => text@ == "failed to retrieve enough entropy"@,
            Error::WrongAddressType => text@ == "wrong address type provided"@,
            Error::ZeroDurationTimeout => text@ == "cannot set a zero duration timeout"@,
            Error::ReservedPort => text@ == "reserved port"@,
            Error::SystemError(errno) => {
                &&& is_numeral(numeral)
                &&& if errno < 0 {
                    text@ == "system error "@ + seq!['-'] + numeral && spelled(numeral) == -errno
                } else {
                    text@ == "system error "@ + numeral && spelled(numeral) == errno
                }
            },
        },
{
    match error {
        Error::SystemError(errno) => {
            let magnitude = if errno < 0 {
                (-errno) as nat
            } else {
                errno as nat
            };
            let numeral = crate::error::digits(magnitude);
            lemma_digits(magnitude);
            if errno < 0 {
                assert(text@ =~= "system error "@ + seq!['-'] + numeral);
            }
            numeral
        },
        _ => Seq::empty(),
    }
}

/// A system error becomes the I/O error of that number, the lack of entropy one of no further kind,
/// and every other error one about the caller's input.
pub proof fn law_error_classes(error: Error, class: ErrorClass)
    requires
        call_ensures(Error::class, (&error,), class),
    ensures
        class is Os <==> error is SystemError,
        error matches Error::SystemError(errno) ==> class == ErrorClass::Os(errno),
        class is Other <==> error is EntropyError,
        class is InvalidInput <==> error is WrongAddressType || error is ZeroDurationTimeout
            || error is ReservedPort,
{
}

} // verus!
