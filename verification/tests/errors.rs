use libzfs::{Error, SysError, ZfsError, ZfsErrorCode};

fn library(code: ZfsErrorCode, msg: &str) -> ZfsError {
    ZfsError::last_error(code, String::from(msg))
}

#[test]
fn code_from_native_number() {
    assert_eq!(ZfsErrorCode::from_raw(0), Some(ZfsErrorCode::EZFS_SUCCESS));
    assert_eq!(ZfsErrorCode::from_raw(2000), Some(ZfsErrorCode::EZFS_NOMEM));
    assert_eq!(ZfsErrorCode::from_raw(2007), Some(ZfsErrorCode::EZFS_BUSY));
    assert_eq!(ZfsErrorCode::from_raw(2009), Some(ZfsErrorCode::EZFS_NOENT));
    assert_eq!(ZfsErrorCode::from_raw(2031), Some(ZfsErrorCode::EZFS_PERM));
    assert_eq!(ZfsErrorCode::from_raw(2089), Some(ZfsErrorCode::EZFS_REBUILDING));
    assert_eq!(ZfsErrorCode::from_raw(2090), Some(ZfsErrorCode::EZFS_UNKNOWN));
    assert_eq!(ZfsErrorCode::from_raw(1), None);
    assert_eq!(ZfsErrorCode::from_raw(1999), None);
    assert_eq!(ZfsErrorCode::from_raw(2091), None);
    assert_eq!(ZfsErrorCode::from_raw(-1), None);
}

#[test]
fn code_round_trip() {
    let mut seen = 0;
    for raw in -5..2200 {
        if let Some(code) = ZfsErrorCode::from_raw(raw) {
            assert_eq!(i32::from(code), raw);
            seen += 1;
        }
    }
    assert_eq!(seen, 92);
}

#[test]
fn code_is_written_by_its_name() {
    assert_eq!(ZfsErrorCode::EZFS_NOENT.name(), "EZFS_NOENT");
    assert_eq!(ZfsErrorCode::EZFS_SUCCESS.name(), "EZFS_SUCCESS");
    assert_eq!(ZfsErrorCode::EZFS_POOL_NOTSUP.name(), "EZFS_POOL_NOTSUP");
    assert_eq!(ZfsErrorCode::EZFS_UNKNOWN.name(), "EZFS_UNKNOWN");
    for raw in 0..2100 {
        if let Some(code) = ZfsErrorCode::from_raw(raw) {
            assert_eq!(code.name(), format!("{:?}", code));
            assert!(code.name().starts_with("EZFS_"));
        }
    }
}

#[test]
fn library_error_message() {
    let e = library(ZfsErrorCode::EZFS_NOENT, "no such pool or dataset");
    assert_eq!(e.message(), "ZFS error EZFS_NOENT: no such pool or dataset");
    assert_eq!(e.message(), format!("ZFS error {:?}: {}", e.code, e.msg));
    let unknown = library(ZfsErrorCode::EZFS_UNKNOWN, "unknown error");
    assert_eq!(unknown.message(), "ZFS error EZFS_UNKNOWN: unknown error");
    let empty = library(ZfsErrorCode::EZFS_SUCCESS, "");
    assert_eq!(empty.message(), "ZFS error EZFS_SUCCESS: ");
}

#[test]
fn library_error_message_holds_name_and_description() {
    for raw in 0..2100 {
        if let Some(code) = ZfsErrorCode::from_raw(raw) {
            let e = library(code, "what the library says, as it says it");
            let text = e.message();
            assert!(text.contains(code.name()));
            assert!(text.ends_with(": what the library says, as it says it"));
            assert_eq!(Error::Zfs(e.clone()).message(), text);
        }
    }
}

#[test]
fn error_message_by_kind() {
    let sys = Error::Sys(SysError { code: 2, msg: String::from("No such file or directory (os error 2)") });
    assert_eq!(sys.message(), "No such file or directory (os error 2)");
    let zfs = Error::Zfs(library(ZfsErrorCode::EZFS_BUSY, "pool or dataset is busy"));
    assert_eq!(zfs.message(), "ZFS error EZFS_BUSY: pool or dataset is busy");
}

#[test]
fn library_error_becomes_error() {
    let e = library(ZfsErrorCode::EZFS_EXISTS, "pool or dataset already exists");
    let wrapped = Error::from(e.clone());
    assert_eq!(wrapped, Error::Zfs(e));
}

#[test]
fn errors_compare_by_what_they_hold() {
    let a = library(ZfsErrorCode::EZFS_NOENT, "no such pool or dataset");
    let b = library(ZfsErrorCode::EZFS_NOENT, "no such pool or dataset");
    let c = library(ZfsErrorCode::EZFS_BUSY, "no such pool or dataset");
    let d = library(ZfsErrorCode::EZFS_NOENT, "other");
    assert!(a == b);
    assert!(a != c);
    assert!(a != d);
    let s1 = SysError { code: 13, msg: String::from("Permission denied") };
    let s2 = SysError { code: 13, msg: String::from("Permission denied") };
    let s3 = SysError { code: 2, msg: String::from("Permission denied") };
    assert!(s1 == s2);
    assert!(s1 != s3);
    assert!(Error::Sys(s1.clone()) == Error::Sys(s2));
    assert!(Error::Sys(s1) != Error::Zfs(a.clone()));
    assert!(Error::Zfs(a) == Error::Zfs(b));
}
