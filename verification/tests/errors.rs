use vsock::{check, check_count, Error, ErrorClass, Platform, Std};

struct Broken;

impl Platform for Broken {
    fn last_os_error() -> Error {
        Error::SystemError(104)
    }
}

#[test]
fn messages() {
    assert_eq!(Error::EntropyError.message(), "failed to retrieve enough entropy");
    assert_eq!(Error::WrongAddressType.message(), "wrong address type provided");
    assert_eq!(Error::ZeroDurationTimeout.message(), "cannot set a zero duration timeout");
    assert_eq!(Error::ReservedPort.message(), "reserved port");
    for errno in [0, 1, 9, 10, 98, 104, 1000, -1, -10, i32::MAX, i32::MIN] {
        assert_eq!(Error::SystemError(errno).message(), format!("system error {}", errno));
    }
}

#[test]
fn classes() {
    assert_eq!(Error::EntropyError.class(), ErrorClass::Other);
    assert_eq!(Error::ReservedPort.class(), ErrorClass::InvalidInput);
    assert_eq!(Error::SystemError(98).class(), ErrorClass::Os(98));
    assert_eq!(Error::WrongAddressType.class(), ErrorClass::InvalidInput);
    assert_eq!(Error::ZeroDurationTimeout.class(), ErrorClass::InvalidInput);
}

#[test]
fn negative_return_values_are_the_platforms_error() {
    assert_eq!(check::<Broken>(-1), Err(Error::SystemError(104)));
    assert_eq!(check::<Broken>(i32::MIN), Err(Error::SystemError(104)));
    assert_eq!(check::<Broken>(0), Ok(0));
    assert_eq!(check::<Broken>(5), Ok(5));
    assert_eq!(check_count::<Broken>(-1), Err(Error::SystemError(104)));
    assert_eq!(check_count::<Broken>(0), Ok(0));
    assert_eq!(check_count::<Broken>(4096), Ok(4096));
}

#[test]
fn standard_platform_reports_the_last_failure() {
    assert!(nix::unistd::close(-1).is_err());
    assert_eq!(Std::last_os_error(), Error::SystemError(libc::EBADF));
}
