use archiiv::errors::ErrorReason;
use archiiv::sandbox::{check_path, sanitize_path, MkDirRequest, RenameRequest};

#[test]
fn accepts_plain_nested_path() {
    let r = sanitize_path("alice", "data", "docs/notes.txt");
    assert_eq!(r.unwrap(), "data/users/alice/docs/notes.txt");
}

#[test]
fn accepts_single_component() {
    let r = sanitize_path("alice", "data", "a");
    assert_eq!(r.unwrap(), "data/users/alice/a");
}

#[test]
fn accepts_dotfiles_and_dotted_names() {
    assert!(check_path(".bashrc"));
    assert!(check_path("a.b/c..d"));
    assert!(check_path("..."));
}

#[test]
fn rejects_parent_components() {
    for p in ["..", "../x", "a/../b", "a/.."] {
        assert_eq!(sanitize_path("alice", "data", p).unwrap_err(), ErrorReason::InvalidPath);
    }
}

#[test]
fn rejects_curdir_components() {
    for p in [".", "./a", "a/./b", "a/."] {
        assert_eq!(sanitize_path("alice", "data", p).unwrap_err(), ErrorReason::InvalidPath);
    }
}

#[test]
fn rejects_root_anchor() {
    for p in ["/", "/a", "/etc/passwd"] {
        assert_eq!(sanitize_path("alice", "data", p).unwrap_err(), ErrorReason::InvalidPath);
    }
}

#[test]
fn rejects_empty_components() {
    for p in ["", "a//b", "a/", "a///b"] {
        assert_eq!(sanitize_path("alice", "data", p).unwrap_err(), ErrorReason::InvalidPath);
    }
}

#[test]
fn no_traversal_is_accepted() {
    // Structural analysis, not substring matching: anything carrying a
    // parent-reference component is refused, however it is framed.
    for p in ["x/../../y", "../../..", "a/b/../c"] {
        assert!(!check_path(p));
    }
}

#[test]
fn request_bodies_carry_their_paths() {
    let rename = RenameRequest { from: "a/b".to_owned(), to: "c".to_owned() };
    assert!(check_path(&rename.from) && check_path(&rename.to));
    let mkdir = MkDirRequest { path: "new/dir".to_owned() };
    assert!(check_path(&mkdir.path));
}
