//! Where the error of a failed system call comes from, and how a return value is read.

use vstd::prelude::*;

use crate::error::Error;

verus! {

/// A source of the error that the last failed system call left behind.
pub trait Platform {
    /// The error of the last failed system call.
    fn last_os_error() -> Error;
}

/// The platform of the standard library.
#[derive(Debug, Clone, Copy)]
pub struct Std;

/// The error number that the last failed system call left behind.
///
/// Calls `std::io::Error::last_os_error` and hands out the number that it holds, which by its
/// documentation is always there. Nothing is claimed of the number: it depends on what the thread
/// did before.
#[verifier::external_body]
fn last_os_code() -> (code: i32) {
    std::io::Error::last_os_error().raw_os_error().expect("Error from OS")
}

impl Std {
    /// This number is one that the operating system may hand out as that of the last failed
    /// system call.
    pub closed spec fn hands_out(code: i32) -> bool {
        call_ensures(last_os_code, (), code)
    }

    /// Such a number comes from a question for it.
    proof fn law_system_is_asked(code: i32)
        requires
            Std::hands_out(code),
        ensures
            call_ensures(last_os_code, (), code),
    {
    }
}

impl Platform for Std {
    fn last_os_error() -> (error: Error)
        ensures
            error matches Error::SystemError(code) && Std::hands_out(code),
    {
        Error::SystemError(last_os_code())
    }
}

impl Error {
    /// This error is one that the platform may give as that of the last failed system call.
    pub open spec fn comes_from<P: Platform>(self) -> bool {
        call_ensures(P::last_os_error, (), self)
    }
}

/// Reads the return value of a system call: a negative one stands for the platform's last error.
pub fn check<P: Platform>(ret: i32) -> (outcome: Result<i32, Error>)
    ensures
        match outcome {
            Ok(value) => ret >= 0 && value == ret,
            Err(error) => ret < 0 && error.comes_from::<P>(),
        },
{
    if ret < 0 {
        Err(P::last_os_error())
    } else {
        Ok(ret)
    }
}

/// Reads the return value of a transfer: a negative one stands for the platform's last error, any
/// other is the number of bytes moved.
pub fn check_count<P: Platform>(ret: isize) -> (outcome: Result<usize, Error>)
    ensures
        match outcome {
            Ok(count) => ret >= 0 && count == ret,
            Err(error) => ret < 0 && error.comes_from::<P>(),
        },
{
    if ret < 0 {
        Err(P::last_os_error())
    } else {
        Ok(ret as usize)
    }
}

} // verus!
