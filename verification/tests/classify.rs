use stat_report::classify::classify;

#[test]
fn long_labels_for_all_recognized_types() {
    assert_eq!(classify(0o060000, false).as_str(), "block device");
    assert_eq!(classify(0o020000, false).as_str(), "character device");
    assert_eq!(classify(0o040000, false).as_str(), "directory");
    assert_eq!(classify(0o010000, false).as_str(), "FIFO/pipe");
    assert_eq!(classify(0o120000, false).as_str(), "symlink");
    assert_eq!(classify(0o100000, false).as_str(), "regular file");
    assert_eq!(classify(0o140000, false).as_str(), "socket");
}

#[test]
fn short_codes_for_all_recognized_types() {
    assert_eq!(classify(0o060000, true).as_str(), "b");
    assert_eq!(classify(0o020000, true).as_str(), "c");
    assert_eq!(classify(0o040000, true).as_str(), "d");
    assert_eq!(classify(0o010000, true).as_str(), "p");
    assert_eq!(classify(0o120000, true).as_str(), "l");
    assert_eq!(classify(0o100000, true).as_str(), "-");
    assert_eq!(classify(0o140000, true).as_str(), "s");
}

#[test]
fn permission_bits_do_not_disturb_classification() {
    assert_eq!(classify(0o100644, false).as_str(), "regular file");
    assert_eq!(classify(0o041777, true).as_str(), "d");
    assert_eq!(classify(0o127777, false).as_str(), "symlink");
}

#[test]
fn unrecognized_type_degrades_to_sentinel() {
    assert_eq!(classify(0o170000, false).as_str(), "unknown?");
    assert_eq!(classify(0o170000, true).as_str(), "?");
    assert_eq!(classify(0o030000, false).as_str(), "unknown?");
    assert_eq!(classify(0o030000, true).as_str(), "?");
    assert_eq!(classify(u32::MAX, true).as_str(), "?");
}
