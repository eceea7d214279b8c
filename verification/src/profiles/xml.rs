//! Planning a `shared_prefs` boolean change: the original value, the hash
//! of the original file, the backup path and the rewritten file, all
//! computed before anything is written.
use vstd::prelude::*;

use sha2::Digest;

use crate::file_actions::snapshot::{ObservedType, PathObservation, PathObservationView};
use crate::model::{is_rule_token, rule_token_ok};
use crate::profiles::error::{invalid_rule, profile_check, ProfileError, ProfileErrorView};
use crate::profiles::xml_bool::{
    read_bool_spec, read_bool_value, rewrite_bool_spec, rewrite_bool_value,
};
use crate::text;

verus! {

pub const BACKUP_RULE_ID_REASON: &'static str = "rule id must be a short ASCII token for backup filenames";

/// What SHA-256 makes of some bytes.
pub uninterp spec fn sha256(content: Seq<u8>) -> Seq<u8>;

/// `sha2::Sha256::digest`. Claimed: the digest of the content, 32 bytes long.
#[verifier::external_body]
fn sha256_digest(content: &[u8]) -> (r: Vec<u8>)
    ensures
        r@ == sha256(content@),
        r@.len() == 32,
{
    sha2::Sha256::digest(content).to_vec()
}

/// A lowercase hexadecimal digit.
pub open spec fn hex_digit(n: int) -> char {
    if n < 10 {
        (48 + n) as char
    } else {
        (87 + n) as char
    }
}

/// Two lowercase hexadecimal digits per byte (`{:02x}`).
pub open spec fn hex_of(bytes: Seq<u8>) -> Seq<char>
    decreases bytes.len(),
{
    if bytes.len() == 0 {
        Seq::empty()
    } else {
        hex_of(bytes.drop_last()) + seq![
            hex_digit(bytes.last() as int / 16),
            hex_digit(bytes.last() as int % 16),
        ]
    }
}

fn hex_digit_str(n: u8) -> (r: &'static str)
    requires
        n < 16,
    ensures
        r@ == seq![hex_digit(n as int)],
{
    let digits = "0123456789abcdef";
    proof {
        reveal_strlit("0123456789abcdef");
        assert(digits@ =~= seq![
            '0', '1', '2', '3', '4', '5', '6', '7', '8', '9', 'a', 'b', 'c', 'd', 'e', 'f',
        ]);
    }
    let r = digits.substring_char(n as usize, n as usize + 1);
    assert(r@ =~= seq![hex_digit(n as int)]);
    r
}

/// The lowercase hexadecimal SHA-256 of some bytes.
pub fn sha256_hex(content: &[u8]) -> (r: String)
    ensures
        r@ == hex_of(sha256(content@)),
{
    let digest = sha256_digest(content);
    let mut out = String::new();
    let mut i: usize = 0;
    while i < digest.len()
        invariant
            i <= digest@.len(),
            out@ == hex_of(digest@.subrange(0, i as int)),
        decreases digest.len() - i,
    {
        let b = digest[i];
        out.append(hex_digit_str(b / 16));
        out.append(hex_digit_str(b % 16));
        assert(digest@.subrange(0, i + 1).drop_last() =~= digest@.subrange(0, i as int));
        i += 1;
    }
    assert(digest@.subrange(0, digest@.len() as int) =~= digest@);
    out
}

/// `Path::join` of a relative name: no separator after an empty directory
/// or one that already ends in `/`.
pub open spec fn path_join(dir: Seq<char>, name: Seq<char>) -> Seq<char> {
    if dir.len() == 0 {
        name
    } else if dir.last() == '/' {
        dir + name
    } else {
        dir + seq!['/'] + name
    }
}

/// `Path::join` of a relative name.
pub fn join_path(dir: &str, name: &str) -> (r: String)
    ensures
        r@ == path_join(dir@, name@),
{
    let chars = text::chars_of(dir);
    if chars.len() == 0 {
        return name.to_owned();
    }
    if chars[chars.len() - 1] == '/' {
        return text::concat(dir, name);
    }
    let mut r = dir.to_owned();
    r.append("/");
    r.append(name);
    proof {
        reveal_strlit("/");
        assert("/"@ =~= seq!['/']);
    }
    assert(r@ =~= dir@ + seq!['/'] + name@);
    r
}

/// Where the original file of a rule is kept: `<backup_dir>/<rule_id>.xml.bak`.
pub open spec fn backup_path_of(backup_dir: Seq<char>, rule_id: Seq<char>) -> Seq<char> {
    path_join(backup_dir, rule_id + ".xml.bak"@)
}

/// The backup path of a rule.
pub fn backup_path_for(backup_dir: &str, rule_id: &str) -> (r: String)
    ensures
        r@ == backup_path_of(backup_dir@, rule_id@),
{
    let name = text::concat(rule_id, ".xml.bak");
    join_path(backup_dir, name.as_str())
}

/// A rule id that can name a backup file.
pub open spec fn backup_rule_id_check(rule_id: Seq<char>) -> Result<(), ProfileErrorView> {
    if is_rule_token(rule_id) {
        Ok(())
    } else {
        invalid_rule("rule_id"@, rule_id, BACKUP_RULE_ID_REASON@)
    }
}

/// Checks that a rule id is a short ASCII token, so that it names a backup file.
pub fn validate_backup_rule_id(rule_id: &str) -> (r: Result<(), ProfileError>)
    ensures
        profile_check(r) == backup_rule_id_check(rule_id@),
{
    if !rule_token_ok(rule_id) {
        return Err(ProfileError::invalid_rule("rule_id", rule_id, BACKUP_RULE_ID_REASON));
    }
    Ok(())
}

/// A planned boolean change, taken by contents.
pub struct XmlBoolPlanView {
    pub original_value: bool,
    pub original_sha256: Seq<char>,
    pub backup_path: Seq<char>,
    pub original: Seq<u8>,
    pub updated: Seq<u8>,
}

/// A planned boolean change: everything the commit writes.
#[derive(Debug, Clone, PartialEq, Eq)]
pub struct XmlBoolPlan {
    /// The value before the change.
    pub original_value: bool,
    /// The lowercase hexadecimal SHA-256 of the original file.
    pub original_sha256: String,
    /// Where the original file is copied.
    pub backup_path: String,
    /// The original file.
    pub original: Vec<u8>,
    /// The file after the change.
    pub updated: Vec<u8>,
}

impl View for XmlBoolPlan {
    type V = XmlBoolPlanView;

    open spec fn view(&self) -> XmlBoolPlanView {
        XmlBoolPlanView {
            original_value: self.original_value,
            original_sha256: self.original_sha256@,
            backup_path: self.backup_path@,
            original: self.original@,
            updated: self.updated@,
        }
    }
}

/// Planning a boolean change of the file `path` whose bytes are `content`:
/// the rule id is checked first, then the key is read, then the file is
/// rewritten; the first failure is the answer.
pub open spec fn plan_bool_spec(
    content: Seq<u8>,
    path: Seq<char>,
    key: Seq<char>,
    value: bool,
    backup_dir: Seq<char>,
    rule_id: Seq<char>,
) -> Result<XmlBoolPlanView, ProfileErrorView> {
    match backup_rule_id_check(rule_id) {
        Err(e) => Err(e),
        Ok(()) => match read_bool_spec(content, key, path) {
            Err(e) => Err(e),
            Ok(original_value) => match rewrite_bool_spec(content, key, value, path) {
                Err(e) => Err(e),
                Ok(updated) => Ok(
                    XmlBoolPlanView {
                        original_value,
                        original_sha256: hex_of(sha256(content)),
                        backup_path: backup_path_of(backup_dir, rule_id),
                        original: content,
                        updated,
                    },
                ),
            },
        },
    }
}

pub open spec fn plan_view(r: Result<XmlBoolPlan, ProfileError>) -> Result<XmlBoolPlanView, ProfileErrorView> {
    match r {
        Ok(p) => Ok(p@),
        Err(e) => Err(e@),
    }
}

/// Plans setting the boolean `key` of the preferences file `path`, whose
/// bytes are `content`, to `value`.
pub fn plan_bool(
    content: &[u8],
    path: &str,
    key: &str,
    value: bool,
    backup_dir: &str,
    rule_id: &str,
) -> (r: Result<XmlBoolPlan, ProfileError>)
    ensures
        plan_view(r) == plan_bool_spec(content@, path@, key@, value, backup_dir@, rule_id@),
{
    validate_backup_rule_id(rule_id)?;
    let original_sha256 = sha256_hex(content);
    let original_value = read_bool_value(content, key, path)?;
    let backup_path = backup_path_for(backup_dir, rule_id);
    let updated = rewrite_bool_value(content, key, value, path)?;
    let mut original: Vec<u8> = Vec::new();
    crate::profiles::xml_bool::push_bytes(&mut original, content);
    assert(original@ =~= content@);
    Ok(XmlBoolPlan { original_value, original_sha256, backup_path, original, updated })
}


pub const NOT_DIRECTORY: &'static str = "backup directory must be a real directory";

pub const BACKUP_EXISTS: &'static str = "backup path already exists";

pub open spec fn io_error(path: Seq<char>, detail: Seq<char>) -> ProfileErrorView {
    ProfileErrorView::Io { path, detail }
}

/// The backup directory, given what `symlink_metadata` said of it: a real
/// directory, or nothing yet.
pub open spec fn backup_dir_state_spec(dir: Seq<char>, obs: PathObservationView) -> Result<(), ProfileErrorView> {
    match obs {
        PathObservationView::Found(f) => if f.file_type == ObservedType::Directory {
            Ok(())
        } else {
            Err(io_error(dir, NOT_DIRECTORY@))
        },
        PathObservationView::Missing(_) => Ok(()),
        PathObservationView::Failed(d) => Err(io_error(dir, d)),
    }
}

/// Checks the backup directory before a commit.
pub fn check_backup_dir_state(dir: &str, obs: &PathObservation) -> (r: Result<(), ProfileError>)
    ensures
        profile_check(r) == backup_dir_state_spec(dir@, obs@),
{
    match obs {
        PathObservation::Found(f) => {
            if f.file_type == ObservedType::Directory {
                Ok(())
            } else {
                Err(ProfileError::Io { path: dir.to_owned(), detail: NOT_DIRECTORY.to_owned() })
            }
        },
        PathObservation::Missing(_) => Ok(()),
        PathObservation::Failed(d) => Err(ProfileError::Io { path: dir.to_owned(), detail: d.clone() }),
    }
}

/// The backup path, given what `symlink_metadata` said of it: it must not exist.
pub open spec fn backup_free_spec(path: Seq<char>, obs: PathObservationView) -> Result<(), ProfileErrorView> {
    match obs {
        PathObservationView::Found(_) => Err(io_error(path, BACKUP_EXISTS@)),
        PathObservationView::Missing(_) => Ok(()),
        PathObservationView::Failed(d) => Err(io_error(path, d)),
    }
}

/// Checks that the backup path is free before a commit.
pub fn check_backup_path_free(path: &str, obs: &PathObservation) -> (r: Result<(), ProfileError>)
    ensures
        profile_check(r) == backup_free_spec(path@, obs@),
{
    match obs {
        PathObservation::Found(_) => Err(ProfileError::Io { path: path.to_owned(), detail: BACKUP_EXISTS.to_owned() }),
        PathObservation::Missing(_) => Ok(()),
        PathObservation::Failed(d) => Err(ProfileError::Io { path: path.to_owned(), detail: d.clone() }),
    }
}

/// The check before a commit writes anything: a preferences path must not
/// be empty.
pub fn check_commit_path(path: &str) -> (r: Result<(), ProfileError>)
    ensures
        match r {
            Ok(()) => path@.len() > 0,
            Err(e) => path@.len() == 0 && e@ == (ProfileErrorView::Io { path: path@, detail: "empty profile path"@ }),
        },
{
    if path.unicode_len() == 0 {
        return Err(ProfileError::Io { path: path.to_owned(), detail: "empty profile path".to_owned() });
    }
    Ok(())
}

/// The check of the file opened for a commit: it must be the file that was
/// planned (`unchanged`: same device and inode).
pub fn check_unchanged(path: &str, unchanged: bool) -> (r: Result<(), ProfileError>)
    ensures
        match r {
            Ok(()) => unchanged,
            Err(e) => !unchanged && e@ == (ProfileErrorView::Io {
                path: path@,
                detail: "profile XML file changed between plan and commit"@,
            }),
        },
{
    if !unchanged {
        return Err(
            ProfileError::Io {
                path: path.to_owned(),
                detail: "profile XML file changed between plan and commit".to_owned(),
            },
        );
    }
    Ok(())
}

} // verus!
