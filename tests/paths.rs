use lwext4_rs::name::MAX_PATH_LEN;
use lwext4_rs::{CName, Error};

#[test]
fn valid_path_round_trips() {
    let c = CName::new("/mp/dir/file.txt".to_string()).unwrap();
    assert_eq!(c.as_str(), "/mp/dir/file.txt");
    assert_eq!(c.byte_len(), 16);
    let b = c.as_bytes_with_nul();
    assert_eq!(b.len(), 17);
    assert_eq!(b[16], 0);
    assert_eq!(&b[..16], "/mp/dir/file.txt".as_bytes());
    assert_eq!(c.into_string(), "/mp/dir/file.txt");
}

#[test]
fn non_ascii_path_counts_bytes() {
    let c = CName::new("/mp/żółw".to_string()).unwrap();
    assert_eq!(c.as_str(), "/mp/żółw");
    assert_eq!(c.byte_len(), "/mp/żółw".len());
}

#[test]
fn empty_path_is_accepted() {
    let c = CName::new(String::new()).unwrap();
    assert_eq!(c.as_str(), "");
    assert_eq!(c.as_bytes_with_nul(), &[0u8][..]);
}

#[test]
fn embedded_terminator_is_refused() {
    assert_eq!(CName::new("/mp/a\0b".to_string()).unwrap_err(), Error::InvalidArgument);
    assert_eq!(CName::new("\0".to_string()).unwrap_err(), Error::InvalidArgument);
}

#[test]
fn length_bound_is_inclusive() {
    let longest = "a".repeat(MAX_PATH_LEN);
    assert!(CName::new(longest.clone()).is_ok());
    let too_long = "a".repeat(MAX_PATH_LEN + 1);
    assert_eq!(CName::new(too_long).unwrap_err(), Error::InvalidArgument);
}

#[test]
fn clone_keeps_the_path() {
    let c = CName::new("/mp/x".to_string()).unwrap();
    let d = c.clone();
    assert_eq!(d.as_str(), "/mp/x");
    assert_eq!(d.as_bytes_with_nul(), c.as_bytes_with_nul());
}
