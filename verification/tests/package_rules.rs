use assethook::path::path_starts_with;
use assethook::pkg::{
    apk_prefix_of, hook_dir_of, internal_replacement_of, public_replacement_of, take_until_nul,
    validate_package_name,
};

#[test]
fn package_names_are_validated() {
    assert_eq!(validate_package_name("com.example.app"), Some(true));
    assert_eq!(validate_package_name("com.my_app"), Some(true));
    assert_eq!(validate_package_name("com/evil"), Some(false));
    assert_eq!(validate_package_name("com.example:remote"), Some(false));
    assert_eq!(validate_package_name("app2"), Some(false));
    assert_eq!(validate_package_name(""), Some(false));
    assert_eq!(validate_package_name("../x"), Some(false));
}

#[test]
fn cmdline_name_ends_at_nul() {
    let mut name = String::new();
    assert!(take_until_nul(&mut name, "com.example\0\0"));
    assert_eq!(name, "com.example");
}

#[test]
fn cmdline_name_spans_lines() {
    let mut name = String::new();
    assert!(!take_until_nul(&mut name, "com."));
    assert_eq!(name, "com.");
    assert!(take_until_nul(&mut name, "example\0rest"));
    assert_eq!(name, "com.example");
}

#[test]
fn cmdline_without_nul_keeps_going() {
    let mut name = String::new();
    assert!(!take_until_nul(&mut name, "abc"));
    assert!(!take_until_nul(&mut name, ""));
    assert_eq!(name, "abc");
    assert!(take_until_nul(&mut name, "\0"));
    assert_eq!(name, "abc");
}

#[test]
fn derived_paths() {
    assert_eq!(hook_dir_of("com.example"), "/data/local/tmp/assethook/com.example/");
    assert_eq!(apk_prefix_of("com.example"), "/data/app/com.example-");
    assert_eq!(
        public_replacement_of("com.example", "index.android.bundle"),
        "/data/local/tmp/assethook/com.example/assets/index.android.bundle"
    );
    assert_eq!(
        internal_replacement_of("com.example", "res/raw/a.txt"),
        "/data/local/tmp/assethook/com.example/res/raw/a.txt"
    );
}

#[test]
fn package_hook_dirs_do_not_overlap() {
    let a = hook_dir_of("com.a");
    let b = hook_dir_of("com.b");
    let inside_a = "/data/local/tmp/assethook/com.a/assets/x";
    assert!(path_starts_with(inside_a, &a));
    assert!(!path_starts_with(inside_a, &b));
}

#[test]
fn dot_package_name_covers_every_package() {
    assert_eq!(validate_package_name("."), Some(true));
    let dot = hook_dir_of(".");
    assert!(path_starts_with("/data/local/tmp/assethook/com.a/assets/x", &dot));
}

#[test]
fn assets_dir_of_package() {
    assert_eq!(assethook::pkg::assets_dir_of("com.example"), "/data/local/tmp/assethook/com.example/assets/");
}

#[test]
fn package_name_characters() {
    assert_eq!(validate_package_name("A_b.C"), Some(true));
    assert_eq!(validate_package_name("com.example\n"), Some(false));
    assert_eq!(validate_package_name("é"), Some(false));
    assert_eq!(validate_package_name("a-b"), Some(false));
    assert_eq!(validate_package_name(" a"), Some(false));
}
