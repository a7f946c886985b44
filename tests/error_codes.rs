use lwext4_rs::error::{errno_to_result, result_to_errno, EACCES, EEXIST, EINVAL, EIO, ENOENT, ENOSPC, ENOTDIR, ENOTSUP, EISDIR, EPERM};
use lwext4_rs::Error;

#[test]
fn each_code_maps_to_its_kind() {
    assert_eq!(Error::from_errno(ENOENT), Error::NoEntry);
    assert_eq!(Error::from_errno(EEXIST), Error::AlreadyExists);
    assert_eq!(Error::from_errno(EINVAL), Error::InvalidArgument);
    assert_eq!(Error::from_errno(EPERM), Error::PermissionDenied);
    assert_eq!(Error::from_errno(EACCES), Error::PermissionDenied);
    assert_eq!(Error::from_errno(EIO), Error::IoError);
    assert_eq!(Error::from_errno(ENOSPC), Error::NoSpace);
    assert_eq!(Error::from_errno(ENOTDIR), Error::NotADirectory);
    assert_eq!(Error::from_errno(EISDIR), Error::IsADirectory);
    assert_eq!(Error::from_errno(ENOTSUP), Error::Unsupported);
    assert_eq!(Error::from_errno(39), Error::Other(39));
}

#[test]
fn zero_status_is_success() {
    assert_eq!(errno_to_result(0), Ok(()));
    assert_eq!(errno_to_result(ENOENT), Err(Error::NoEntry));
    assert_eq!(errno_to_result(61), Err(Error::Other(61)));
}

#[test]
fn errors_report_nonzero_status() {
    assert_eq!(result_to_errno(&Ok(())), 0);
    assert_eq!(result_to_errno(&Err(Error::NoSpace)), ENOSPC);
    assert_eq!(result_to_errno(&Err(Error::Other(0))), EIO);
    assert_eq!(result_to_errno(&Err(Error::Other(39))), 39);
    assert_eq!(Error::PermissionDenied.errno(), EACCES);
}

#[test]
fn kinds_round_trip_through_status_codes() {
    let kinds = [
        Error::NoEntry,
        Error::AlreadyExists,
        Error::InvalidArgument,
        Error::PermissionDenied,
        Error::IoError,
        Error::NoSpace,
        Error::NotADirectory,
        Error::IsADirectory,
        Error::Unsupported,
    ];
    for k in kinds {
        assert_eq!(errno_to_result(k.errno()), Err(k));
    }
}
