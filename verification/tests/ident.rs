use stat_report::ident::{name_or_fallback, resolve_group_name, resolve_user_name};

#[test]
fn looked_up_name_is_returned_as_is() {
    let name = name_or_fallback(1000, Some(String::from("alice")));
    assert_eq!(name.as_str(), "alice");
}

#[test]
fn absent_entry_falls_back_to_the_numeric_id() {
    assert_eq!(name_or_fallback(1234, None).as_str(), "1234");
    assert_eq!(name_or_fallback(0, None).as_str(), "0");
    assert_eq!(name_or_fallback(u32::MAX, None).as_str(), "4294967295");
}

#[test]
fn uid_zero_resolves_to_root() {
    assert_eq!(resolve_user_name(0).as_str(), "root");
}

#[test]
fn gid_zero_resolves_to_root() {
    assert_eq!(resolve_group_name(0).as_str(), "root");
}
