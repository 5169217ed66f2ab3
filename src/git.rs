use vstd::prelude::*;
use vstd::string::StringExecFns;
use vstd::utf8::{decode_utf8, valid_utf8};

use crate::text::{decode, is_white_space, join2, join3, texts, trim, trimmed, white_space};

verus! {

/// Whether the base ref has to be fetched before it can be resolved: only
/// when it is not the ref under review, which is already checked out.
pub fn needs_fetch(base_ref: &str, head_ref: &str) -> (r: bool)
    ensures
        r == (base_ref@ != head_ref@),
{
    !crate::text::str_equal(base_ref, head_ref)
}

/// Arguments to git for a shallow fetch of exactly the base ref from
/// `origin` into the ref of the same name.
pub open spec fn fetch_argv(workspace: Seq<char>, base_ref: Seq<char>) -> Seq<Seq<char>> {
    seq!["-C"@, workspace, "fetch"@, "--depth"@, "1"@, "origin"@, base_ref + ":"@ + base_ref]
}

pub fn fetch_args(workspace: &str, base_ref: &str) -> (r: Vec<String>)
    ensures
        texts(r@) == fetch_argv(workspace@, base_ref@),
{
    let mut r: Vec<String> = Vec::new();
    r.push(String::from_str("-C"));
    r.push(String::from_str(workspace));
    r.push(String::from_str("fetch"));
    r.push(String::from_str("--depth"));
    r.push(String::from_str("1"));
    r.push(String::from_str("origin"));
    r.push(join3(base_ref, ":", base_ref));
    assert(texts(r@) =~= fetch_argv(workspace@, base_ref@));
    r
}

/// Arguments to git that print the hash of the ref given. With `--verify`
/// git takes the ref as a full name and matches it exactly: a short name or
/// the tail of a name matches nothing.
pub open spec fn show_ref_argv(workspace: Seq<char>, base_ref: Seq<char>) -> Seq<Seq<char>> {
    seq!["-C"@, workspace, "show-ref"@, "--verify"@, "--hash"@, base_ref]
}

pub fn show_ref_args(workspace: &str, base_ref: &str) -> (r: Vec<String>)
    ensures
        texts(r@) == show_ref_argv(workspace@, base_ref@),
{
    let mut r: Vec<String> = Vec::new();
    r.push(String::from_str("-C"));
    r.push(String::from_str(workspace));
    r.push(String::from_str("show-ref"));
    r.push(String::from_str("--verify"));
    r.push(String::from_str("--hash"));
    r.push(String::from_str(base_ref));
    assert(texts(r@) =~= show_ref_argv(workspace@, base_ref@));
    r
}

/// Arguments to git for a forced, detached checkout of `sha` in the tree at
/// `dir`, which drops any local change there.
pub open spec fn checkout_argv(dir: Seq<char>, sha: Seq<char>) -> Seq<Seq<char>> {
    seq!["-C"@, dir, "checkout"@, "--detach"@, "--force"@, sha]
}

pub fn checkout_args(dir: &str, sha: &str) -> (r: Vec<String>)
    ensures
        texts(r@) == checkout_argv(dir@, sha@),
{
    let mut r: Vec<String> = Vec::new();
    r.push(String::from_str("-C"));
    r.push(String::from_str(dir));
    r.push(String::from_str("checkout"));
    r.push(String::from_str("--detach"));
    r.push(String::from_str("--force"));
    r.push(String::from_str(sha));
    assert(texts(r@) =~= seq!["-C"@, dir@, "checkout"@, "--detach"@, "--force"@, sha@]);
    r
}

/// Why the base revision could not be resolved.
#[derive(Clone, Copy, Debug, PartialEq, Eq, Structural)]
pub enum ResolveError {
    /// No ref of that exact name exists: the lookup failed or printed no
    /// commit.
    NotFound,
    /// The lookup printed something that is not UTF-8.
    NotUtf8,
    /// The lookup printed more than one commit id.
    NotOneCommit,
}

/// Whether white space occurs in `s`.
pub open spec fn has_white_space(s: Seq<char>) -> bool {
    exists|i: int| 0 <= i < s.len() && is_white_space(#[trigger] s[i])
}

/// The base commit that a lookup gives, from whether git succeeded and what
/// it printed: the output without surrounding white space, which must be
/// one id, neither empty nor holding white space.
pub open spec fn commit_of(found: bool, stdout: Seq<u8>) -> Result<Seq<char>, ResolveError> {
    if !found {
        Err(ResolveError::NotFound)
    } else if !valid_utf8(stdout) {
        Err(ResolveError::NotUtf8)
    } else if trimmed(decode_utf8(stdout)).len() == 0 {
        Err(ResolveError::NotFound)
    } else if has_white_space(trimmed(decode_utf8(stdout))) {
        Err(ResolveError::NotOneCommit)
    } else {
        Ok(trimmed(decode_utf8(stdout)))
    }
}

/// The text of a resolution's outcome.
pub open spec fn commit_text(r: Result<String, ResolveError>) -> Result<Seq<char>, ResolveError> {
    match r {
        Ok(s) => Ok(s@),
        Err(e) => Err(e),
    }
}

/// Whether white space occurs in `s`.
fn holds_white_space(s: &str) -> (r: bool)
    ensures
        r == has_white_space(s@),
{
    let n = s.unicode_len();
    let mut i: usize = 0;
    while i < n
        invariant
            i <= n,
            n == s@.len(),
            forall|k: int| 0 <= k < i ==> !is_white_space(#[trigger] s@[k]),
        decreases n - i,
    {
        if white_space(s.get_char(i)) {
            return true;
        }
        i = i + 1;
    }
    false
}

/// The base commit from the lookup of the base ref: `found` tells whether
/// git succeeded, `stdout` is what it printed.
pub fn base_sha_from_output(stdout: Vec<u8>, found: bool) -> (r: Result<String, ResolveError>)
    ensures
        commit_text(r) == commit_of(found, stdout@),
        r matches Ok(s) ==> s@.len() > 0 && !has_white_space(s@),
{
    if !found {
        return Err(ResolveError::NotFound);
    }
    match decode(stdout) {
        Some(s) => {
            let sha = trim(s.as_str());
            if sha.unicode_len() == 0 {
                Err(ResolveError::NotFound)
            } else if holds_white_space(sha.as_str()) {
                Err(ResolveError::NotOneCommit)
            } else {
                Ok(sha)
            }
        },
        None => Err(ResolveError::NotUtf8),
    }
}

/// Path of the manifest at the root of the tree `dir`.
pub open spec fn manifest_of(dir: Seq<char>) -> Seq<char> {
    dir + "/Cargo.toml"@
}

/// Arguments to the analyzer's cargo: the toolchain `toolchain`, a
/// machine-readable report over all features, the base tree as the stable
/// side and the head tree as the current one.
pub open spec fn analysis_argv(toolchain: Seq<char>, base_dir: Seq<char>, head_dir: Seq<char>) -> Seq<
    Seq<char>,
> {
    seq![
        "+"@ + toolchain,
        "semver"@,
        "--json"@,
        "--all-features"@,
        "--stable-path"@,
        manifest_of(base_dir),
        "--current-path"@,
        manifest_of(head_dir),
    ]
}

pub fn analysis_args(toolchain: &str, base_dir: &str, head_dir: &str) -> (r: Vec<String>)
    ensures
        texts(r@) == analysis_argv(toolchain@, base_dir@, head_dir@),
{
    let mut r: Vec<String> = Vec::new();
    r.push(join2("+", toolchain));
    r.push(String::from_str("semver"));
    r.push(String::from_str("--json"));
    r.push(String::from_str("--all-features"));
    r.push(String::from_str("--stable-path"));
    r.push(join2(base_dir, "/Cargo.toml"));
    r.push(String::from_str("--current-path"));
    r.push(join2(head_dir, "/Cargo.toml"));
    assert(texts(r@) =~= analysis_argv(toolchain@, base_dir@, head_dir@));
    r
}

/// The analyzer's arguments for the toolchain named in `toolchain_file`,
/// with the white space around the name dropped.
pub fn analysis_args_from_file(toolchain_file: &str, base_dir: &str, head_dir: &str) -> (r: Vec<
    String,
>)
    ensures
        texts(r@) == analysis_argv(trimmed(toolchain_file@), base_dir@, head_dir@),
{
    let toolchain = trim(toolchain_file);
    analysis_args(toolchain.as_str(), base_dir, head_dir)
}

} // verus!
