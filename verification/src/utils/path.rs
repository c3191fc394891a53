//! Checks on paths that come from outside: a path may not hold a null
//! character or `..`, and where a base directory is given it may not lead
//! out of it.
//!
//! The file system is the caller's: it reports what it found of a path as
//! a `Located`, and the verdict is taken here.

use crate::utils::text::chars_of;
use std::path::Path;
use vstd::prelude::*;
use vstd::string::StringExecFns;

verus! {

/// What the file system says of a path.
#[derive(Debug)]
pub enum Located {
    /// The path exists: its canonical form, or why it has none.
    Existing(Result<String, String>),
    /// The path does not exist but its parent does: the parent's canonical
    /// form, or why it has none, and the last component of the path. Where
    /// no base is given the parent plays no part, and this counts as
    /// `Unresolved`.
    InParent { parent: Result<String, String>, file_name: Option<String> },
    /// Neither exists: the path is taken as it is written.
    Unresolved,
}

/// Whether `s` holds a null character.
pub open spec fn has_null(s: Seq<char>) -> bool {
    s.contains('\0')
}

/// Whether `s` holds two dots in a row.
pub open spec fn has_traversal(s: Seq<char>) -> bool {
    exists|i: int| 0 <= i < s.len() - 1 && #[trigger] s[i] == '.' && s[i + 1] == '.'
}

/// What is wrong with the text of a path, if anything.
pub open spec fn text_fault(path: Seq<char>) -> Option<Seq<char>> {
    if has_null(path) {
        Some("Path contains null bytes"@)
    } else if has_traversal(path) {
        Some("Path traversal detected (contains '..')"@)
    } else {
        None
    }
}

/// Whether `path` lies in `base`, component by component, as
/// `Path::starts_with` decides it.
pub uninterp spec fn path_within(path: Seq<char>, base: Seq<char>) -> bool;

/// `name` appended to the path `parent`, as `Path::join` does it.
pub uninterp spec fn path_joined(parent: Seq<char>, name: Seq<char>) -> Seq<char>;

/// A path in its quoted form, as the `Debug` form of a `Path` gives it.
pub uninterp spec fn path_debug_text(path: Seq<char>) -> Seq<char>;

/// `Path::starts_with`: whether the components of `base` open those of
/// `path`. It depends on the two texts alone.
#[verifier::external_body]
fn starts_with_path(path: &str, base: &str) -> (r: bool)
    ensures
        r == path_within(path@, base@),
{
    Path::new(path).starts_with(Path::new(base))
}

/// `Path::join`, with the result as text. It depends on the two texts alone.
#[verifier::external_body]
fn join_path(parent: &str, name: &str) -> (r: String)
    ensures
        r@ == path_joined(parent@, name@),
{
    Path::new(parent).join(name).to_string_lossy().into_owned()
}

/// The `Debug` form of a `Path`: the path between quotes, with what cannot
/// stand in a quoted text escaped. It depends on the text alone.
#[verifier::external_body]
fn debug_path(path: &str) -> (r: String)
    ensures
        r@ == path_debug_text(path@),
{
    format!("{:?}", Path::new(path))
}

/// The message for a path that leaves its base: it names both in their
/// quoted form.
pub open spec fn escape_text(path: Seq<char>, base: Seq<char>) -> Seq<char> {
    "Path escapes allowed directory: "@ + path_debug_text(path) + " is not within "@
        + path_debug_text(base)
}

/// The path that the checks go by where no base is given, or the fault in
/// finding it: the canonical form of a path that exists, and any other
/// path as it is written. The parent is not looked at.
pub open spec fn free_candidate(path: Seq<char>, located: Located) -> Result<Seq<char>, Seq<char>> {
    match located {
        Located::Existing(Ok(canonical)) => Ok(canonical@),
        Located::Existing(Err(e)) => Err("Failed to canonicalize path: "@ + e@),
        _ => Ok(path),
    }
}

/// The path that the checks go by where a base is given, or the fault in
/// finding it: the canonical form of a path that exists; for one that only
/// has a parent, the parent's canonical form with the last component of
/// the path; and any other path as it is written.
pub open spec fn candidate(path: Seq<char>, located: Located) -> Result<Seq<char>, Seq<char>> {
    match located {
        Located::Existing(Ok(canonical)) => Ok(canonical@),
        Located::Existing(Err(e)) => Err("Failed to canonicalize path: "@ + e@),
        Located::InParent { parent: Err(e), .. } => Err(
            "Failed to canonicalize parent path: "@ + e@,
        ),
        Located::InParent { parent: Ok(_), file_name: None } => Err(
            "Path has no filename component"@,
        ),
        Located::InParent { parent: Ok(dir), file_name: Some(name) } => Ok(
            path_joined(dir@, name@),
        ),
        Located::Unresolved => Ok(path),
    }
}

/// The verdict on a path: its canonical form where it passes, else the
/// first fault, in this order: a null character, `..`, a base without a
/// canonical form, a path without one, a path that leaves the base.
pub open spec fn path_verdict(
    path: Seq<char>,
    base: Option<Result<String, String>>,
    located: Located,
) -> Result<Seq<char>, Seq<char>> {
    match text_fault(path) {
        Some(fault) => Err(fault),
        None => match base {
            Some(Err(e)) => Err("Failed to canonicalize base path: "@ + e@),
            Some(Ok(dir)) => match candidate(path, located) {
                Ok(p) => if path_within(p, dir@) {
                    Ok(p)
                } else {
                    Err(escape_text(p, dir@))
                },
                Err(fault) => Err(fault),
            },
            None => free_candidate(path, located),
        },
    }
}

/// The text of an outcome.
pub open spec fn outcome_text(r: Result<String, String>) -> Result<Seq<char>, Seq<char>> {
    match r {
        Ok(s) => Ok(s@),
        Err(e) => Err(e@),
    }
}

/// Looks for a null character and for `..` in the text of a path.
pub fn check_path_text(path: &str) -> (r: Result<(), String>)
    ensures
        match text_fault(path@) {
            Some(fault) => r matches Err(e) && e@ == fault,
            None => r is Ok,
        },
{
    let chars = chars_of(path);
    let n = chars.len();
    let mut i: usize = 0;
    while i < n
        invariant
            i <= n,
            n == chars.len(),
            chars@ == path@,
            forall|j: int| 0 <= j < i ==> chars@[j] != '\0',
        decreases n - i,
    {
        if chars[i] == '\0' {
            return Err(String::from_str("Path contains null bytes"));
        }
        i += 1;
    }
    if n < 2 {
        return Ok(());
    }
    let mut k: usize = 0;
    while k < n - 1
        invariant
            k <= n - 1,
            n == chars.len(),
            n >= 2,
            chars@ == path@,
            !has_null(path@),
            forall|j: int| 0 <= j < k ==> !(#[trigger] chars@[j] == '.' && chars@[j + 1] == '.'),
        decreases n - k,
    {
        if chars[k] == '.' && chars[k + 1] == '.' {
            return Err(String::from_str("Path traversal detected (contains '..')"));
        }
        k += 1;
    }
    Ok(())
}

fn find_free_candidate(path: &str, located: Located) -> (r: Result<String, String>)
    ensures
        outcome_text(r) == free_candidate(path@, located),
{
    match located {
        Located::Existing(Ok(canonical)) => Ok(canonical),
        Located::Existing(Err(e)) => {
            let mut message = String::from_str("Failed to canonicalize path: ");
            message.append(e.as_str());
            Err(message)
        },
        _ => Ok(String::from_str(path)),
    }
}

fn find_candidate(path: &str, located: Located) -> (r: Result<String, String>)
    ensures
        outcome_text(r) == candidate(path@, located),
{
    match located {
        Located::Existing(Ok(canonical)) => Ok(canonical),
        Located::Existing(Err(e)) => {
            let mut message = String::from_str("Failed to canonicalize path: ");
            message.append(e.as_str());
            Err(message)
        },
        Located::InParent { parent: Err(e), file_name } => {
            let mut message = String::from_str("Failed to canonicalize parent path: ");
            message.append(e.as_str());
            Err(message)
        },
        Located::InParent { parent: Ok(dir), file_name: None } => Err(
            String::from_str("Path has no filename component"),
        ),
        Located::InParent { parent: Ok(dir), file_name: Some(name) } => Ok(
            join_path(dir.as_str(), name.as_str()),
        ),
        Located::Unresolved => Ok(String::from_str(path)),
    }
}

/// Gives the verdict on a path. `allowed_base` is the canonical form of
/// the directory that the path must lie in, or why it has none; `located`
/// is what the file system says of the path.
pub fn validate_path(path: &str, allowed_base: Option<Result<String, String>>, located: Located) -> (r:
    Result<String, String>)
    ensures
        outcome_text(r) == path_verdict(path@, allowed_base, located),
{
    match check_path_text(path) {
        Err(fault) => {
            return Err(fault);
        },
        Ok(_) => {},
    }
    match allowed_base {
        Some(Err(e)) => {
            let mut message = String::from_str("Failed to canonicalize base path: ");
            message.append(e.as_str());
            Err(message)
        },
        Some(Ok(dir)) => match find_candidate(path, located) {
            Ok(p) => if starts_with_path(p.as_str(), dir.as_str()) {
                Ok(p)
            } else {
                let mut message = String::from_str("Path escapes allowed directory: ");
                let quoted_path = debug_path(p.as_str());
                message.append(quoted_path.as_str());
                message.append(" is not within ");
                let quoted_base = debug_path(dir.as_str());
                message.append(quoted_base.as_str());
                Err(message)
            },
            Err(fault) => Err(fault),
        },
        None => find_free_candidate(path, located),
    }
}

/// Gives the verdict on a path that must lie in the data directory.
pub fn validate_data_path(path: &str, data_dir: Result<String, String>, located: Located) -> (r:
    Result<String, String>)
    ensures
        outcome_text(r) == path_verdict(path@, Some(data_dir), located),
{
    validate_path(path, Some(data_dir), located)
}

/// What is wrong with a path that a user wrote, if anything: it may not be
/// empty, and may hold neither a null character nor `..`.
pub open spec fn sanitize_fault(path: Seq<char>) -> Option<Seq<char>> {
    if path.len() == 0 {
        Some("Path cannot be empty"@)
    } else {
        text_fault(path)
    }
}

/// Checks a path that a user wrote and hands it back where it passes.
pub fn sanitize_path_string(path_str: &str) -> (r: Result<String, String>)
    ensures
        match sanitize_fault(path_str@) {
            Some(fault) => r matches Err(e) && e@ == fault,
            None => r matches Ok(p) && p@ == path_str@,
        },
{
    if path_str.is_empty() {
        return Err(String::from_str("Path cannot be empty"));
    }
    match check_path_text(path_str) {
        Err(fault) => Err(fault),
        Ok(_) => Ok(String::from_str(path_str)),
    }
}

} // verus!
