use keyforge_model::error::ModelError;
use keyforge_model::types::{PathError, SafePath};
use std::path::{Path, PathBuf};

#[test]
fn test_valid_paths() {
    assert!(SafePath::try_from_str("a/b/c").is_ok());
    let p = SafePath::try_from_str("a/b/../c").unwrap();
    assert_eq!(p.as_path(), Path::new("a/c"));

    let p2 = SafePath::try_from_str("./foo").unwrap();
    assert_eq!(p2.as_path(), Path::new("foo"));
}

#[test]
fn test_invalid_paths() {
    assert!(SafePath::try_from_str("/etc/passwd").is_err());
    assert!(SafePath::try_from_str("../foo").is_err());
    assert!(SafePath::try_from_str("a/../../b").is_err());
}

#[test]
fn test_join() {
    let p = SafePath::try_from_str("a/b").unwrap();
    let p2 = p.join("c").unwrap();
    assert_eq!(p2.as_path(), Path::new("a/b/c"));

    assert!(p.join("../../../d").is_err());

    let root = Path::new("/etc");
    let safe_root = SafePath::from_trusted_root(root, &SafePath::try_from_str(".").unwrap());
    assert_eq!(safe_root.as_path(), Path::new("/etc/."));

    let joined = safe_root.join("passwd").unwrap();
    assert_eq!(joined.as_path(), Path::new("/etc/./passwd"));
}

#[test]
fn normalized_text_and_messages() {
    assert_eq!(SafePath::try_from_str("a//b/./c/").unwrap().as_str(), "a/b/c");
    assert_eq!(SafePath::try_from_str("").unwrap().as_str(), ".");
    assert_eq!(SafePath::try_from_str("a/..").unwrap().as_str(), ".");
    assert_eq!(SafePath::try_from_str("...").unwrap().as_str(), "...");
    assert_eq!(
        SafePath::try_from_str("/x").unwrap_err(),
        ModelError::Invariant("Path '/x' is absolute".into())
    );
    assert_eq!(
        SafePath::try_from_str("a/../..").unwrap_err(),
        ModelError::Invariant("Path 'a/../..' attempts to traverse above root".into())
    );
    let p = SafePath::try_from_str("a").unwrap();
    assert_eq!(
        p.join("/abs").unwrap_err(),
        ModelError::Invariant("Path '/abs' contains invalid root/prefix components".into())
    );
    assert_eq!(
        p.join("../..").unwrap_err(),
        ModelError::Invariant("Path 'a/../..' attempts to traverse above root".into())
    );
    assert_eq!(p.join("b/../c").unwrap().display_string(), "a/c");
    let root = SafePath::from_trusted_root_path(PathBuf::from("/data"));
    assert_eq!(root.join("x/y").unwrap().as_str(), "/data/x/y");
    assert_eq!(
        root.join("..").unwrap_err(),
        ModelError::Invariant("Path '/data/..' attempts to traverse above root".into())
    );
    assert_eq!(root.join("x/../y").unwrap().as_str(), "/data/y");
    assert_eq!(root.join_trusted(&SafePath::try_from_str("k").unwrap()).as_str(), "/data/k");
    assert_eq!(SafePath::try_from_str("q/r").unwrap().into_inner(), PathBuf::from("q/r"));
    assert!(SafePath::try_from_path(Path::new("ok/x")).is_ok());
    let parsed: SafePath = "m/n".parse().unwrap();
    assert_eq!(parsed.as_str(), "m/n");
}

#[test]
fn path_error_messages() {
    assert_eq!(PathError::Absolute.message(), "Path is absolute");
    assert_eq!(PathError::InvalidPrefix.message(), "Path contains invalid root/prefix components");
    assert_eq!(PathError::Traversal.message(), "Path attempts to traverse above root");
}

#[test]
fn safe_path_normalizing_twice_changes_nothing() {
    for text in ["a/./b/../c", "x//y/", ".", "a/b/c/../../d", "./q"] {
        let once = SafePath::try_from_str(text).unwrap();
        let twice = SafePath::try_from_str(once.as_str()).unwrap();
        assert_eq!(once.as_str(), twice.as_str());
    }
}

#[test]
fn safe_path_join_onto_relative_stays_relative() {
    let base = SafePath::try_from_str("data/maps").unwrap();
    let joined = base.join("../keys/./k1").unwrap();
    assert_eq!(joined.as_str(), "data/keys/k1");
    assert!(!joined.as_str().starts_with('/'));
    assert!(base.join("/etc").is_err());
    assert!(base.join("../../..").is_err());
}

#[test]
fn trusted_root_is_never_left() {
    let root = SafePath::from_trusted_root_path(PathBuf::from("/srv/data"));
    assert_eq!(root.as_str(), "/srv/data");
    assert!(root.join("/etc/passwd").is_err());
    assert!(root.join("../x").is_err());
    assert_eq!(root.join("a/./b").unwrap().as_str(), "/srv/data/a/b");
    let etc = SafePath::from_trusted_root(Path::new("/etc"), &SafePath::try_from_str(".").unwrap());
    assert_eq!(etc.as_str(), "/etc/.");
    let joined = etc.join("passwd").unwrap();
    assert_eq!(joined.as_str(), "/etc/passwd");
    assert_eq!(joined.as_path(), Path::new("/etc/./passwd"));
    assert_eq!(SafePath::try_from_path(Path::new("/abs")).unwrap_err(),
        ModelError::Invariant("Path '/abs' is absolute".into()));
}
