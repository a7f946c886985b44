use lwext4_rs::registry::DEVICE_SLOTS;
use lwext4_rs::{CName, Error, Registry};

fn name(s: &str) -> CName {
    CName::new(s.to_string()).unwrap()
}

#[test]
fn second_registration_under_a_name_is_refused() {
    let mut r = Registry::new(DEVICE_SLOTS);
    assert_eq!(r.register(&name("ext4fs")), Ok(()));
    assert_eq!(r.register(&name("ext4fs")), Err(Error::AlreadyExists));
    assert!(r.is_registered(&name("ext4fs")));
}

#[test]
fn name_is_free_again_after_unregistering() {
    let mut r = Registry::new(DEVICE_SLOTS);
    assert_eq!(r.register(&name("ext4fs")), Ok(()));
    assert_eq!(r.unregister(&name("ext4fs")), Ok(()));
    assert!(!r.is_registered(&name("ext4fs")));
    assert_eq!(r.register(&name("ext4fs")), Ok(()));
}

#[test]
fn full_table_is_refused() {
    let mut r = Registry::new(2);
    assert_eq!(r.register(&name("a")), Ok(()));
    assert_eq!(r.register(&name("b")), Ok(()));
    assert_eq!(r.register(&name("c")), Err(Error::NoSpace));
    assert_eq!(r.register(&name("a")), Err(Error::AlreadyExists));
    assert_eq!(r.unregister(&name("a")), Ok(()));
    assert_eq!(r.register(&name("c")), Ok(()));
    assert!(r.is_registered(&name("b")));
    assert!(r.is_registered(&name("c")));
}

#[test]
fn long_device_name_is_refused() {
    let mut r = Registry::new(2);
    assert_eq!(r.register(&name(&"d".repeat(33))), Err(Error::InvalidArgument));
    assert_eq!(r.register(&name(&"d".repeat(32))), Ok(()));
}

#[test]
fn unregistering_unknown_name_is_no_entry() {
    let mut r = Registry::new(2);
    assert_eq!(r.unregister(&name("ghost")), Err(Error::NoEntry));
}

#[test]
fn guarded_registration_under_one_name_succeeds_once() {
    let shared = std::sync::Mutex::new(Registry::new(DEVICE_SLOTS));
    let first = shared.lock().unwrap().register(&name("ext4fs"));
    let second = shared.lock().unwrap().register(&name("ext4fs"));
    assert_eq!(first, Ok(()));
    assert_eq!(second, Err(Error::AlreadyExists));
}
