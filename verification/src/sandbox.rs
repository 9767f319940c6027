//! The path sandbox: confines every user-supplied relative path to that
//! user's own directory.
//!
//! A path is analysed structurally, component by component — never by
//! substring matching, since traversal can be encoded without a literal
//! parent-reference substring. Every component between separators must be a
//! plain name: any empty component (which covers a root anchor, a doubled or
//! trailing separator, and the empty path), any `.` and any `..` is
//! rejected. An accepted path is joined under `<data_dir>/users/<username>/`.

use vstd::prelude::*;
use vstd::string::StringExecFns;

use crate::errors::ErrorReason;

verus! {

/// Position `i` starts a component: the path's start, or just after a `/`.
pub open spec fn comp_start(p: Seq<char>, i: int) -> bool {
    i == 0 || p[i - 1] == '/'
}

/// Position `i` ends a component: the path's end, or at a `/`.
pub open spec fn comp_end(p: Seq<char>, i: int) -> bool {
    i == p.len() || p[i] == '/'
}

/// An empty component at `i`: a root anchor, a doubled or trailing
/// separator, or the empty path.
pub open spec fn empty_component_at(p: Seq<char>, i: int) -> bool {
    0 <= i <= p.len() && comp_start(p, i) && comp_end(p, i)
}

/// A current-directory component `.` at `i`.
pub open spec fn curdir_component_at(p: Seq<char>, i: int) -> bool {
    0 <= i && i + 1 <= p.len() && comp_start(p, i) && p[i] == '.' && comp_end(p, i + 1)
}

/// A parent-reference component `..` at `i`.
pub open spec fn parent_component_at(p: Seq<char>, i: int) -> bool {
    0 <= i && i + 2 <= p.len() && comp_start(p, i) && p[i] == '.' && p[i + 1] == '.' && comp_end(
        p,
        i + 2,
    )
}

pub open spec fn bad_component_at(p: Seq<char>, i: int) -> bool {
    empty_component_at(p, i) || curdir_component_at(p, i) || parent_component_at(p, i)
}

/// Every component of `p` is a plain name: none is empty, `.` or `..`.
pub open spec fn path_ok(p: Seq<char>) -> bool {
    forall|i: int| 0 <= i <= p.len() ==> !(#[trigger] bad_component_at(p, i))
}

/// A path with any parent-reference, current-directory or empty component
/// (a root anchor among them) is never accepted: no input is both
/// traversal-bearing and accepted.
pub proof fn lemma_traversal_rejected(p: Seq<char>, i: int)
    requires
        bad_component_at(p, i),
    ensures
        !path_ok(p),
{
}

/// One whole component `[start, end)`, already seen to be non-empty and
/// neither `.` nor `..`, holds no bad component position in `[start, end]`.
proof fn lemma_segment_ok(p: Seq<char>, start: int, end: int)
    requires
        0 <= start <= end <= p.len(),
        comp_start(p, start),
        comp_end(p, end),
        forall|j: int| start <= j < end ==> p[j] != '/',
        end - start >= 1,
        !(end - start == 1 && p[start] == '.'),
        !(end - start == 2 && p[start] == '.' && p[start + 1] == '.'),
    ensures
        forall|j: int| start <= j <= end ==> !(#[trigger] bad_component_at(p, j)),
{
    assert forall|j: int| start <= j <= end implies !bad_component_at(p, j) by {
        if j == start {
            assert(!comp_end(p, start));
            if p[start] == '.' && start + 1 < end {
                assert(!comp_end(p, start + 1));
            }
            if end - start >= 3 && p[start] == '.' && p[start + 1] == '.' {
                assert(!comp_end(p, start + 2));
            }
        } else {
            assert(p[j - 1] != '/');
            assert(!comp_start(p, j));
        }
    }
}

/// Decides whether every component of `path` is a plain name.
pub fn check_path(path: &str) -> (ok: bool)
    ensures
        ok == path_ok(path@),
{
    let ghost p = path@;
    let n = path.unicode_len();
    if n == 0 {
        proof {
            assert(bad_component_at(p, 0));
        }
        return false;
    }
    let mut start: usize = 0;
    let mut i: usize = 0;
    while i < n
        invariant
            start <= i <= n,
            n == p.len(),
            p == path@,
            comp_start(p, start as int),
            forall|j: int| start <= j < i ==> p[j] != '/',
            forall|j: int| 0 <= j < start ==> !(#[trigger] bad_component_at(p, j)),
        decreases n - i,
    {
        if path.get_char(i) == '/' {
            if i == start {
                proof {
                    assert(bad_component_at(p, start as int));
                }
                return false;
            }
            if i - start == 1 && path.get_char(start) == '.' {
                proof {
                    assert(curdir_component_at(p, start as int));
                    assert(bad_component_at(p, start as int));
                }
                return false;
            }
            if i - start == 2 && path.get_char(start) == '.' && path.get_char(start + 1) == '.' {
                proof {
                    assert(parent_component_at(p, start as int));
                    assert(bad_component_at(p, start as int));
                }
                return false;
            }
            proof {
                lemma_segment_ok(p, start as int, i as int);
            }
            start = i + 1;
        }
        i = i + 1;
    }
    if start == n {
        proof {
            assert(bad_component_at(p, start as int));
        }
        return false;
    }
    if n - start == 1 && path.get_char(start) == '.' {
        proof {
            assert(curdir_component_at(p, start as int));
            assert(bad_component_at(p, start as int));
        }
        return false;
    }
    if n - start == 2 && path.get_char(start) == '.' && path.get_char(start + 1) == '.' {
        proof {
            assert(parent_component_at(p, start as int));
            assert(bad_component_at(p, start as int));
        }
        return false;
    }
    proof {
        lemma_segment_ok(p, start as int, n as int);
    }
    true
}

/// Validates `path` against the sandbox rules and, when every component is a
/// plain name, joins it under `<data_dir>/users/<username>/`. Rejected paths
/// answer with InvalidPath; the caller adds the descriptive hint.
pub fn sanitize_path(username: &str, data_dir: &str, path: &str) -> (r: Result<String, ErrorReason>)
    ensures
        r is Ok <==> path_ok(path@),
        r matches Ok(full) ==> full@ == data_dir@ + "/users/"@ + username@ + "/"@ + path@,
        r matches Err(e) ==> e == ErrorReason::InvalidPath,
{
    if !check_path(path) {
        return Err(ErrorReason::InvalidPath);
    }
    let mut full = data_dir.to_owned();
    full.append("/users/");
    full.append(username);
    full.append("/");
    full.append(path);
    proof {
        assert(full@ =~= data_dir@ + "/users/"@ + username@ + "/"@ + path@);
    }
    Ok(full)
}

/// Body of a rename request: both endpoints are validated by the sandbox
/// before any filesystem work.
pub struct RenameRequest {
    pub from: String,
    pub to: String,
}

/// Body of a directory-creation request.
pub struct MkDirRequest {
    pub path: String,
}

} // verus!
