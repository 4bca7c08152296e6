use assethook::path::{path_components, path_starts_with, str_starts_with, PathComponent};
use std::path::Path;

fn normal(s: &str) -> PathComponent {
    PathComponent::Normal(s.chars().collect())
}

fn same(a: &[PathComponent], b: &[PathComponent]) -> bool {
    a.len() == b.len()
        && a.iter().zip(b.iter()).all(|(x, y)| match (x, y) {
            (PathComponent::RootDir, PathComponent::RootDir) => true,
            (PathComponent::CurDir, PathComponent::CurDir) => true,
            (PathComponent::ParentDir, PathComponent::ParentDir) => true,
            (PathComponent::Normal(p), PathComponent::Normal(q)) => p == q,
            _ => false,
        })
}

#[test]
fn components_of_absolute_path() {
    let c = path_components("/data//local/./tmp/");
    assert!(same(&c, &[PathComponent::RootDir, normal("data"), normal("local"), normal("tmp")]));
}

#[test]
fn components_of_relative_paths() {
    assert!(same(&path_components("./a/../b"), &[PathComponent::CurDir, normal("a"), PathComponent::ParentDir, normal("b")]));
    assert!(same(&path_components("a/./b"), &[normal("a"), normal("b")]));
    assert!(same(&path_components("."), &[PathComponent::CurDir]));
    assert!(same(&path_components(".."), &[PathComponent::ParentDir]));
    assert!(same(&path_components(""), &[]));
    assert!(same(&path_components(".hidden"), &[normal(".hidden")]));
}

#[test]
fn hook_dir_containment() {
    let dir = "/data/local/tmp/assethook/com.example/";
    assert!(path_starts_with("/data/local/tmp/assethook/com.example/assets/a.png", dir));
    assert!(path_starts_with("/data/local/tmp/assethook/com.example", dir));
    assert!(!path_starts_with("/data/local/tmp/assethook/com.examples/assets/a.png", dir));
    assert!(!path_starts_with("/data/local/tmp/assethook/com.exampl", dir));
    assert!(!path_starts_with("/data/local/tmp/assethook", dir));
    assert!(!path_starts_with("/etc/passwd", dir));
}

#[test]
fn containment_agrees_with_std_path() {
    let paths = [
        "", "/", "//", "/a", "/a/", "/a//b", "/a/b/", "/a/./b", "/a/../b", "a", "a/b", "./a", ".",
        "..", "../a", "/ab", "/a/bc", "a/", "./", "/.", "/..", "a/.", "a/..", ".a/b", "/data/x",
    ];
    for p in paths.iter() {
        for b in paths.iter() {
            assert_eq!(
                path_starts_with(p, b),
                Path::new(p).starts_with(b),
                "path {:?} base {:?}",
                p,
                b
            );
        }
    }
}

#[test]
fn string_prefix() {
    assert!(str_starts_with("/data/app/com.example-1/base.apk", "/data/app/com.example-"));
    assert!(!str_starts_with("/data/app/com.example2-1/base.apk", "/data/app/com.example-"));
    assert!(str_starts_with("abc", ""));
    assert!(!str_starts_with("ab", "abc"));
    assert!(str_starts_with("héllo", "hé"));
}
