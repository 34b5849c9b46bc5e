use stat_report::perms::build_permission_string;

#[test]
fn plain_regular_file() {
    assert_eq!(build_permission_string(0o100644).as_str(), "-rw-r--r--");
}

#[test]
fn setuid_with_owner_execute_is_lowercase_s() {
    assert_eq!(build_permission_string(0o104755).as_str(), "-rwsr-xr-x");
}

#[test]
fn setuid_without_owner_execute_is_uppercase_s() {
    assert_eq!(build_permission_string(0o104600).as_str(), "-rwS------");
}

#[test]
fn setgid_overlays_group_execute_slot() {
    assert_eq!(build_permission_string(0o102755).as_str(), "-rwxr-sr-x");
    assert_eq!(build_permission_string(0o102645).as_str(), "-rw-r-Sr-x");
}

#[test]
fn sticky_with_world_execute_is_lowercase_t() {
    assert_eq!(build_permission_string(0o041777).as_str(), "drwxrwxrwt");
}

#[test]
fn sticky_without_world_execute_is_uppercase_t() {
    assert_eq!(build_permission_string(0o041776).as_str(), "drwxrwxrwT");
}

#[test]
fn full_house_of_special_bits() {
    assert_eq!(build_permission_string(0o107777).as_str(), "-rwsrwsrwt");
    assert_eq!(build_permission_string(0o107000).as_str(), "---S--S--T");
}

#[test]
fn unknown_type_still_gets_a_permission_string() {
    assert_eq!(build_permission_string(0o030644).as_str(), "?rw-r--r--");
}
