use macroquest::{eq_version, is_mq_next, EQVersion};

#[test]
fn test_eq_version_build_date() {
    assert_eq!(
        EQVersion(*b"Jan 02 2006 15:04:05\0").build_date(),
        "Jan 02 2006"
    );
}

#[test]
fn test_eq_version_build_time() {
    assert_eq!(
        EQVersion(*b"Jan 02 2006 15:04:05\0").build_time(),
        "15:04:05"
    );
}

#[test]
fn test_eq_version_value_round_trip() {
    let v = eq_version(*b"Jan 02 2006 15:04:05\0");
    assert_eq!(&v.0, b"Jan 02 2006 15:04:05\0");
}

#[test]
fn test_eq_version_from_stamp() {
    let v = EQVersion::from_stamp(b"Jan 02 2006 15:04:05").unwrap();
    assert_eq!(&v.0, b"Jan 02 2006 15:04:05\0");
    assert_eq!(v.build_date(), "Jan 02 2006");
    assert_eq!(v.build_time(), "15:04:05");
}

#[test]
fn test_eq_version_from_stamp_wrong_length() {
    assert!(EQVersion::from_stamp(b"Jan 02 2006").is_none());
    assert!(EQVersion::from_stamp(b"Jan 02 2006 15:04:05 and more").is_none());
}

#[test]
fn test_is_mq_next() {
    assert!(is_mq_next());
}
