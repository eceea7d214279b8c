//! The path side of symlink-free file-system access: which directories are
//! walked, one component at a time, from `/` or from the host root.
use vstd::prelude::*;

use crate::file_actions::target::{components, has_parent_component, is_absolute, path_components, traverses};
use crate::text;

verus! {

pub const NOT_ABSOLUTE: &'static str = "path must be absolute";
pub const TRAVERSES: &'static str = "path must not traverse";
pub const NO_PARENT: &'static str = "path has no parent";
pub const NO_FINAL_COMPONENT: &'static str = "path has no final component";
pub const ESCAPED_ROOT: &'static str = "parent directory escaped filesystem root";
pub const PARENT_MISSING: &'static str = "parent directory is missing";
pub const PARENT_SYMLINK: &'static str = "parent directory contains symlink";
pub const PARENT_NOT_DIRECTORY: &'static str = "parent path contains non-directory";

/// A path that can be walked from `/`: absolute and without `..`.
pub open spec fn walk_check(p: Seq<char>) -> Result<(), Seq<char>> {
    if !is_absolute(p) {
        Err(NOT_ABSOLUTE@)
    } else if traverses(p) {
        Err(TRAVERSES@)
    } else {
        Ok(())
    }
}

pub open spec fn reason_check(r: Result<(), &'static str>) -> Result<(), Seq<char>> {
    match r {
        Ok(()) => Ok(()),
        Err(m) => Err(m@),
    }
}

pub open spec fn reason_view<T: View>(r: Result<T, &'static str>) -> Result<T::V, Seq<char>> {
    match r {
        Ok(v) => Ok(v@),
        Err(m) => Err(m@),
    }
}

/// The directories to open from `/` to reach `path`.
pub fn walk_components(path: &str) -> (r: Result<Vec<String>, &'static str>)
    ensures
        match (r, walk_check(path@)) {
            (Ok(c), Ok(())) => c.deep_view() == components(path@),
            (Err(m), Err(n)) => m@ == n,
            _ => false,
        },
{
    if !text::starts_with(path, '/') {
        return Err(NOT_ABSOLUTE);
    }
    let c = path_components(path);
    if has_parent_component(&c) {
        return Err(TRAVERSES);
    }
    Ok(c)
}

/// The parent directory's components and the final name of a walkable path.
pub open spec fn split_final_spec(p: Seq<char>) -> Result<(Seq<Seq<char>>, Seq<char>), Seq<char>> {
    match walk_check(p) {
        Err(m) => Err(m),
        Ok(()) => {
            let c = components(p);
            if c.len() == 0 {
                Err(NO_FINAL_COMPONENT@)
            } else {
                Ok((c.drop_last(), c.last()))
            }
        },
    }
}

/// The parent directory's components and the final name of a path.
pub fn split_final(path: &str) -> (r: Result<(Vec<String>, String), &'static str>)
    ensures
        match (r, split_final_spec(path@)) {
            (Ok((parent, name)), Ok((p, n))) => parent.deep_view() == p && name@ == n,
            (Err(m), Err(n)) => m@ == n,
            _ => false,
        },
{
    let mut c = walk_components(path)?;
    let ghost all = c.deep_view();
    if c.len() == 0 {
        return Err(NO_FINAL_COMPONENT);
    }
    let name = c.pop().unwrap();
    assert(c.deep_view() =~= all.drop_last());
    Ok((c, name))
}

/// The parent directory of a walkable path.
pub open spec fn parent_spec(p: Seq<char>) -> Result<Seq<Seq<char>>, Seq<char>> {
    match walk_check(p) {
        Err(m) => Err(m),
        Ok(()) => {
            let c = components(p);
            if c.len() == 0 {
                Err(NO_PARENT@)
            } else {
                Ok(c.drop_last())
            }
        },
    }
}

/// The components of a path's parent directory.
pub fn parent_components(path: &str) -> (r: Result<Vec<String>, &'static str>)
    ensures
        match (r, parent_spec(path@)) {
            (Ok(c), Ok(p)) => c.deep_view() == p,
            (Err(m), Err(n)) => m@ == n,
            _ => false,
        },
{
    let mut c = walk_components(path)?;
    let ghost all = c.deep_view();
    if c.len() == 0 {
        return Err(NO_PARENT);
    }
    c.pop();
    assert(c.deep_view() =~= all.drop_last());
    Ok(c)
}

/// The directories below the root to check for `path`'s parent: both must
/// be walkable and the parent must lie inside the root.
pub open spec fn beneath_spec(p: Seq<char>, root: Seq<char>) -> Result<Seq<Seq<char>>, Seq<char>> {
    match walk_check(p) {
        Err(m) => Err(m),
        Ok(()) => match walk_check(root) {
            Err(m) => Err(m),
            Ok(()) => {
                let c = components(p);
                let r = components(root);
                if c.len() == 0 {
                    Err(NO_PARENT@)
                } else if r.len() <= c.len() - 1 && c.drop_last().subrange(0, r.len() as int) == r {
                    Ok(c.drop_last().subrange(r.len() as int, c.len() - 1))
                } else {
                    Err(ESCAPED_ROOT@)
                }
            },
        },
    }
}

/// The directories below the root, in order, that lead to `path`'s parent.
pub fn beneath_root_components(path: &str, root: &str) -> (r: Result<Vec<String>, &'static str>)
    ensures
        match (r, beneath_spec(path@, root@)) {
            (Ok(c), Ok(p)) => c.deep_view() == p,
            (Err(m), Err(n)) => m@ == n,
            _ => false,
        },
{
    walk_components(path)?;
    let rc = walk_components(root)?;
    let parent = parent_components(path)?;
    let ghost c = components(path@);
    let ghost pv = parent.deep_view();
    let ghost rv = rc.deep_view();
    assert(rv.len() == rc@.len());
    assert(pv.len() == parent@.len());
    assert(pv == c.drop_last());
    if rc.len() > parent.len() {
        return Err(ESCAPED_ROOT);
    }
    let mut i: usize = 0;
    while i < rc.len()
        invariant
            rc@.len() <= parent@.len(),
            i <= rc@.len(),
            pv == parent.deep_view(),
            rv == rc.deep_view(),
            rv == components(root@),
            pv == c.drop_last(),
            c == components(path@),
            c.len() > 0,
            walk_check(path@) is Ok,
            walk_check(root@) is Ok,
            forall|j: int| 0 <= j < i ==> pv[j] == rv[j],
        decreases rc.len() - i,
    {
        if !text::str_eq(parent[i].as_str(), rc[i].as_str()) {
            assert(pv.subrange(0, rv.len() as int)[i as int] != rv[i as int]);
            return Err(ESCAPED_ROOT);
        }
        i += 1;
    }
    assert(pv.subrange(0, rv.len() as int) =~= rv);
    let mut rest: Vec<String> = Vec::new();
    let mut k: usize = rc.len();
    while k < parent.len()
        invariant
            rc@.len() <= k <= parent@.len(),
            pv == parent.deep_view(),
            rv.len() == rc@.len(),
            rest.deep_view() =~= pv.subrange(rv.len() as int, k as int),
        decreases parent.len() - k,
    {
        let piece = parent[k].clone();
        assert(piece@ == pv[k as int]);
        let ghost before = rest.deep_view();
        rest.push(piece);
        assert(rest.deep_view() =~= before.push(pv[k as int]));
        assert(pv.subrange(rv.len() as int, k + 1) =~= pv.subrange(rv.len() as int, k as int).push(pv[k as int]));
        k += 1;
    }
    Ok(rest)
}

/// What stands at a directory component during a walk.
#[derive(Debug, Clone, Copy, PartialEq, Eq, Structural)]
pub enum ChildKind {
    Directory,
    Symlink,
    Other,
    Missing,
}

/// A walk goes on only through real directories.
pub open spec fn child_spec(kind: ChildKind) -> Result<(), Seq<char>> {
    match kind {
        ChildKind::Directory => Ok(()),
        ChildKind::Missing => Err(PARENT_MISSING@),
        ChildKind::Symlink => Err(PARENT_SYMLINK@),
        ChildKind::Other => Err(PARENT_NOT_DIRECTORY@),
    }
}

/// Whether a walk goes on through what stands at a component.
pub fn check_child(kind: ChildKind) -> (r: Result<(), &'static str>)
    ensures
        reason_check(r) == child_spec(kind),
{
    match kind {
        ChildKind::Directory => Ok(()),
        ChildKind::Missing => Err(PARENT_MISSING),
        ChildKind::Symlink => Err(PARENT_SYMLINK),
        ChildKind::Other => Err(PARENT_NOT_DIRECTORY),
    }
}

} // verus!
