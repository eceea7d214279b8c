//! A checked file-action target: an Android path and the host path it is
//! mapped to, inside a host file-system root.
use vstd::prelude::*;

use crate::file_actions::error::{action_check, rejected, FileActionError, FileActionErrorView};
use crate::text;

verus! {

pub const ABSOLUTE_REASON: &'static str = "android path must be absolute";
pub const TRAVERSE_REASON: &'static str = "android path must not traverse";
pub const PROTECTED_REASON: &'static str = "protected root rejected";
pub const HOST_ABSOLUTE_REASON: &'static str = "host paths must be absolute";
pub const HOST_TRAVERSE_REASON: &'static str = "host path must not traverse";
pub const HOST_ESCAPE_REASON: &'static str = "host path escapes filesystem root";
pub const SYMLINK_REASON: &'static str = "symlink targets are rejected";
pub const CANONICAL_ESCAPE_REASON: &'static str = "canonical host path escapes filesystem root";

/// A path that starts at the root.
pub open spec fn is_absolute(p: Seq<char>) -> bool {
    p.len() > 0 && p[0] == '/'
}

/// The pieces between `/` that name something: neither empty nor `.`.
pub open spec fn named_pieces(pieces: Seq<Seq<char>>) -> Seq<Seq<char>>
    decreases pieces.len(),
{
    if pieces.len() == 0 {
        Seq::empty()
    } else {
        let rest = named_pieces(pieces.drop_last());
        if pieces.last().len() > 0 && pieces.last() != "."@ {
            rest.push(pieces.last())
        } else {
            rest
        }
    }
}

/// The components of a path after its root, as `Path::components` yields
/// them for an absolute path: empty pieces and `.` are skipped, `..` stays.
pub open spec fn components(p: Seq<char>) -> Seq<Seq<char>> {
    named_pieces(text::split_on(p, '/'))
}

/// An absolute path with a `..` component.
pub open spec fn traverses(p: Seq<char>) -> bool {
    components(p).contains(".."@)
}

/// `Path::starts_with` for two absolute paths: the components of `base`
/// begin those of `p`.
pub open spec fn path_starts_with(p: Seq<char>, base: Seq<char>) -> bool {
    let c = components(p);
    let b = components(base);
    b.len() <= c.len() && c.subrange(0, b.len() as int) == b
}

/// The roots that are never a target: `/`, `/data`, `/sdcard`, `/storage`,
/// `/system`, `/vendor`.
pub open spec fn is_protected_root(p: Seq<char>) -> bool {
    let c = components(p);
    is_absolute(p) && (c.len() == 0 || c == seq!["data"@] || c == seq!["sdcard"@] || c
        == seq!["storage"@] || c == seq!["system"@] || c == seq!["vendor"@])
}

/// `/data/adb` and `/data/local/tmp`, and everything under them.
pub open spec fn is_protected_subtree(p: Seq<char>) -> bool {
    is_absolute(p) && (path_starts_with(p, "/data/adb"@) || path_starts_with(p, "/data/local/tmp"@))
}

/// The checks of an Android path, in order.
pub open spec fn android_check(p: Seq<char>) -> Result<(), FileActionErrorView> {
    if !is_absolute(p) {
        Err(rejected(p, ABSOLUTE_REASON@))
    } else if traverses(p) {
        Err(rejected(p, TRAVERSE_REASON@))
    } else if is_protected_root(p) || is_protected_subtree(p) {
        Err(rejected(p, PROTECTED_REASON@))
    } else {
        Ok(())
    }
}

/// The checks of the host mapping that need no file system, in order; they
/// name the Android path.
pub open spec fn host_check(android: Seq<char>, host: Seq<char>, root: Seq<char>) -> Result<
    (),
    FileActionErrorView,
> {
    if !is_absolute(host) || !is_absolute(root) {
        Err(rejected(android, HOST_ABSOLUTE_REASON@))
    } else if traverses(host) || traverses(root) {
        Err(rejected(android, HOST_TRAVERSE_REASON@))
    } else if !path_starts_with(host, root) {
        Err(rejected(android, HOST_ESCAPE_REASON@))
    } else {
        Ok(())
    }
}

/// What the file system says of a mapping.
pub struct HostFacts {
    /// `symlink_metadata(host_path)` succeeded on a symlink.
    pub host_is_symlink: bool,
    /// `canonicalize(filesystem_root)`.
    pub canonical_root: Result<String, FileActionError>,
    /// `canonicalize` of the host path when it exists, else of its parent,
    /// else of the root.
    pub canonical_existing: Result<String, FileActionError>,
}

pub struct HostFactsView {
    pub host_is_symlink: bool,
    pub canonical_root: Result<Seq<char>, FileActionErrorView>,
    pub canonical_existing: Result<Seq<char>, FileActionErrorView>,
}

pub open spec fn string_result_view(r: Result<String, FileActionError>) -> Result<Seq<char>, FileActionErrorView> {
    match r {
        Ok(s) => Ok(s@),
        Err(e) => Err(e@),
    }
}

impl View for HostFacts {
    type V = HostFactsView;

    open spec fn view(&self) -> HostFactsView {
        HostFactsView {
            host_is_symlink: self.host_is_symlink,
            canonical_root: string_result_view(self.canonical_root),
            canonical_existing: string_result_view(self.canonical_existing),
        }
    }
}

/// The checks that need the file system: no symlink target, and the
/// canonical host path stays inside the canonical root.
pub open spec fn facts_check(android: Seq<char>, facts: HostFactsView) -> Result<(), FileActionErrorView> {
    if facts.host_is_symlink {
        Err(rejected(android, SYMLINK_REASON@))
    } else {
        match facts.canonical_root {
            Err(e) => Err(e),
            Ok(root) => match facts.canonical_existing {
                Err(e) => Err(e),
                Ok(resolved) => if path_starts_with(resolved, root) {
                    Ok(())
                } else {
                    Err(rejected(android, CANONICAL_ESCAPE_REASON@))
                },
            },
        }
    }
}

/// Every check of a target, in order.
pub open spec fn target_check(
    android: Seq<char>,
    host: Seq<char>,
    root: Seq<char>,
    facts: HostFactsView,
) -> Result<(), FileActionErrorView> {
    match android_check(android) {
        Err(e) => Err(e),
        Ok(()) => match host_check(android, host, root) {
            Err(e) => Err(e),
            Ok(()) => facts_check(android, facts),
        },
    }
}

/// The components of a path.
pub fn path_components(p: &str) -> (r: Vec<String>)
    ensures
        r.deep_view() == components(p@),
{
    let pieces = text::split_char(p, '/');
    let ghost all = pieces.deep_view();
    let mut out: Vec<String> = Vec::new();
    let mut i: usize = 0;
    while i < pieces.len()
        invariant
            i <= pieces@.len(),
            all == pieces.deep_view(),
            all == text::split_on(p@, '/'),
            out.deep_view() == named_pieces(all.subrange(0, i as int)),
        decreases pieces.len() - i,
    {
        let piece = pieces[i].as_str();
        assert(all.subrange(0, i + 1).drop_last() =~= all.subrange(0, i as int));
        assert(all.subrange(0, i + 1).last() == piece@);
        if piece.unicode_len() > 0 && !text::str_eq(piece, ".") {
            out.push(piece.to_owned());
            assert(out.deep_view() =~= named_pieces(all.subrange(0, i as int)).push(piece@));
        }
        i += 1;
    }
    assert(all.subrange(0, all.len() as int) =~= all);
    out
}

fn absolute(p: &str) -> (r: bool)
    ensures
        r == is_absolute(p@),
{
    text::starts_with(p, '/')
}

pub(crate) fn has_parent_component(c: &Vec<String>) -> (r: bool)
    ensures
        r == c.deep_view().contains(".."@),
{
    let mut i: usize = 0;
    while i < c.len()
        invariant
            i <= c@.len(),
            forall|j: int| 0 <= j < i ==> c.deep_view()[j] != ".."@,
        decreases c.len() - i,
    {
        if text::str_eq(c[i].as_str(), "..") {
            assert(c.deep_view()[i as int] == ".."@);
            return true;
        }
        i += 1;
    }
    assert(!c.deep_view().contains(".."@)) by {
        if c.deep_view().contains(".."@) {
            let j = choose|j: int| 0 <= j < c.deep_view().len() && c.deep_view()[j] == ".."@;
            assert(c.deep_view()[j] != ".."@);
        }
    }
    false
}

fn components_start_with(c: &Vec<String>, b: &Vec<String>) -> (r: bool)
    ensures
        r == (b.deep_view().len() <= c.deep_view().len() && c.deep_view().subrange(
            0,
            b.deep_view().len() as int,
        ) == b.deep_view()),
{
    if b.len() > c.len() {
        return false;
    }
    let mut i: usize = 0;
    while i < b.len()
        invariant
            b@.len() <= c@.len(),
            i <= b@.len(),
            forall|j: int| 0 <= j < i ==> c.deep_view()[j] == b.deep_view()[j],
        decreases b.len() - i,
    {
        if !text::str_eq(c[i].as_str(), b[i].as_str()) {
            assert(c.deep_view()[i as int] != b.deep_view()[i as int]);
            assert(c.deep_view().subrange(0, b.deep_view().len() as int)[i as int] != b.deep_view()[i as int]);
            return false;
        }
        i += 1;
    }
    assert(c.deep_view().subrange(0, b.deep_view().len() as int) =~= b.deep_view());
    true
}

/// `Path::starts_with` for two absolute paths.
pub fn starts_with_path(p: &str, base: &str) -> (r: bool)
    ensures
        r == path_starts_with(p@, base@),
{
    let c = path_components(p);
    let b = path_components(base);
    components_start_with(&c, &b)
}

fn is_single(c: &Vec<String>, name: &str) -> (r: bool)
    ensures
        r == (c.deep_view() == seq![name@]),
{
    if c.len() != 1 {
        assert(c.deep_view().len() != 1);
        return false;
    }
    let r = text::str_eq(c[0].as_str(), name);
    if r {
        assert(c.deep_view() =~= seq![name@]);
    } else {
        assert(c.deep_view()[0] != seq![name@][0]);
    }
    r
}

/// Checks an Android path: absolute, without `..`, and outside the
/// protected roots and subtrees.
pub fn validate_android_path(p: &str) -> (r: Result<(), FileActionError>)
    ensures
        action_check(r) == android_check(p@),
{
    if !absolute(p) {
        return Err(FileActionError::rejected_target(p, ABSOLUTE_REASON));
    }
    let c = path_components(p);
    if has_parent_component(&c) {
        return Err(FileActionError::rejected_target(p, TRAVERSE_REASON));
    }
    let protected_root = c.len() == 0 || is_single(&c, "data") || is_single(&c, "sdcard")
        || is_single(&c, "storage") || is_single(&c, "system") || is_single(&c, "vendor");
    assert(c.len() == 0 ==> c.deep_view().len() == 0);
    let protected_subtree = starts_with_path(p, "/data/adb") || starts_with_path(p, "/data/local/tmp");
    if protected_root || protected_subtree {
        return Err(FileActionError::rejected_target(p, PROTECTED_REASON));
    }
    Ok(())
}

/// Checks the host mapping without the file system.
pub fn validate_host_mapping(android: &str, host: &str, root: &str) -> (r: Result<(), FileActionError>)
    ensures
        action_check(r) == host_check(android@, host@, root@),
{
    if !absolute(host) || !absolute(root) {
        return Err(FileActionError::rejected_target(android, HOST_ABSOLUTE_REASON));
    }
    let hc = path_components(host);
    let rc = path_components(root);
    if has_parent_component(&hc) || has_parent_component(&rc) {
        return Err(FileActionError::rejected_target(android, HOST_TRAVERSE_REASON));
    }
    if !components_start_with(&hc, &rc) {
        return Err(FileActionError::rejected_target(android, HOST_ESCAPE_REASON));
    }
    Ok(())
}

/// Checks what the file system said of the mapping.
pub fn check_host_facts(android: &str, facts: HostFacts) -> (r: Result<(), FileActionError>)
    ensures
        action_check(r) == facts_check(android@, facts@),
{
    if facts.host_is_symlink {
        return Err(FileActionError::rejected_target(android, SYMLINK_REASON));
    }
    let root = facts.canonical_root?;
    let resolved = facts.canonical_existing?;
    if starts_with_path(resolved.as_str(), root.as_str()) {
        return Ok(());
    }
    Err(FileActionError::rejected_target(android, CANONICAL_ESCAPE_REASON))
}

/// A checked file-action target.
#[derive(Debug, Clone, PartialEq, Eq)]
pub struct FileActionTarget {
    android_path: String,
    host_path: String,
    filesystem_root: String,
}

impl FileActionTarget {
    pub closed spec fn android_view(&self) -> Seq<char> {
        self.android_path@
    }

    pub closed spec fn host_view(&self) -> Seq<char> {
        self.host_path@
    }

    pub closed spec fn root_view(&self) -> Seq<char> {
        self.filesystem_root@
    }

    /// Maps the Android path `android_path` to `host_path` inside
    /// `filesystem_root`; `facts` is what the file system says of the host
    /// paths. The first failing check is the error.
    pub fn new(android_path: &str, host_path: &str, filesystem_root: &str, facts: HostFacts) -> (r:
        Result<Self, FileActionError>)
        ensures
            action_check(r) == target_check(android_path@, host_path@, filesystem_root@, facts@),
            r matches Ok(t) ==> t.android_view() == android_path@ && t.host_view() == host_path@
                && t.root_view() == filesystem_root@,
    {
        validate_android_path(android_path)?;
        validate_host_mapping(android_path, host_path, filesystem_root)?;
        check_host_facts(android_path, facts)?;
        Ok(
            FileActionTarget {
                android_path: android_path.to_owned(),
                host_path: host_path.to_owned(),
                filesystem_root: filesystem_root.to_owned(),
            },
        )
    }

    /// The logical path on the Android device.
    pub fn android_path(&self) -> (r: &str)
        ensures
            r@ == self.android_view(),
    {
        self.android_path.as_str()
    }

    /// The real path under the host root.
    pub fn host_path(&self) -> (r: &str)
        ensures
            r@ == self.host_view(),
    {
        self.host_path.as_str()
    }

    /// The host root.
    pub fn filesystem_root(&self) -> (r: &str)
        ensures
            r@ == self.root_view(),
    {
        self.filesystem_root.as_str()
    }

    /// A copy of this target.
    pub fn duplicate(&self) -> (r: Self)
        ensures
            r.android_view() == self.android_view(),
            r.host_view() == self.host_view(),
            r.root_view() == self.root_view(),
    {
        FileActionTarget {
            android_path: self.android_path.clone(),
            host_path: self.host_path.clone(),
            filesystem_root: self.filesystem_root.clone(),
        }
    }
}

} // verus!
