use tact_extension::paths::{package_name, sanitize_windows_path, server_entry_path, Os};

#[test]
fn windows_strips_leading_slash() {
    let r = sanitize_windows_path(Os::Windows, String::from("/C:/foo"));
    assert_eq!(r, "C:/foo");
}

#[test]
fn windows_strips_only_the_first_slash() {
    let r = sanitize_windows_path(Os::Windows, String::from("//C:/foo"));
    assert_eq!(r, "/C:/foo");
}

#[test]
fn windows_keeps_path_without_leading_slash() {
    let r = sanitize_windows_path(Os::Windows, String::from("C:/foo"));
    assert_eq!(r, "C:/foo");
}

#[test]
fn windows_strips_one_slash_from_slashes_only() {
    let r = sanitize_windows_path(Os::Windows, String::from("///"));
    assert_eq!(r, "//");
}

#[test]
fn windows_keeps_empty_path() {
    let r = sanitize_windows_path(Os::Windows, String::from(""));
    assert_eq!(r, "");
}

#[test]
fn mac_keeps_any_path() {
    let r = sanitize_windows_path(Os::Mac, String::from("/C:/foo"));
    assert_eq!(r, "/C:/foo");
}

#[test]
fn linux_keeps_any_path() {
    let r = sanitize_windows_path(Os::Linux, String::from("/usr/lib"));
    assert_eq!(r, "/usr/lib");
}

#[test]
fn package_name_is_fixed() {
    assert_eq!(package_name(), "@tact-lang/tact-language-server");
}

#[test]
fn entry_path_joins_fixed_suffix() {
    let r = server_entry_path(Os::Linux, String::from("/home/user/project"));
    assert_eq!(
        r,
        "/home/user/project/node_modules/@tact-lang/tact-language-server/server.js"
    );
}

#[test]
fn entry_path_sanitizes_on_windows() {
    let r = server_entry_path(Os::Windows, String::from("/C:/work"));
    assert_eq!(
        r,
        "C:/work/node_modules/@tact-lang/tact-language-server/server.js"
    );
}
