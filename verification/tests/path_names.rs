use hot_reload_lib::paths::alias_path;
use hot_reload_lib::paths::artifact_path;
use hot_reload_lib::paths::last_dot_index;
use hot_reload_lib::paths::u64_to_string;

#[test]
fn artifact_name_is_prefixed_and_suffixed() {
    assert_eq!(artifact_path("target/debug", "update", "so"), "target/debug/libupdate.so");
    assert_eq!(artifact_path("target/debug", "view", "dylib"), "target/debug/libview.dylib");
}

#[test]
fn decimal_rendering() {
    assert_eq!(u64_to_string(0), "0");
    assert_eq!(u64_to_string(7), "7");
    assert_eq!(u64_to_string(10), "10");
    assert_eq!(u64_to_string(905), "905");
    assert_eq!(u64_to_string(18446744073709551615), "18446744073709551615");
}

#[test]
fn alias_inserts_timestamp_before_extension() {
    assert_eq!(
        alias_path("target/debug/libupdate.so", 1234),
        "target/debug/libupdate-1234.so"
    );
    assert_eq!(alias_path("a.b.c", 5), "a.b-5.c");
}

#[test]
fn alias_paths_differ_for_distinct_timestamps() {
    let a = alias_path("target/debug/libview.so", 7);
    let b = alias_path("target/debug/libview.so", 8);
    assert_ne!(a, b);
    assert_ne!(a, "target/debug/libview.so");
    assert_ne!(b, "target/debug/libview.so");
}

#[test]
fn rightmost_dot_is_found() {
    assert_eq!(last_dot_index("libupdate.so"), Some(9));
    assert_eq!(last_dot_index("a.b.c"), Some(3));
    assert_eq!(last_dot_index("no_extension"), None);
}
