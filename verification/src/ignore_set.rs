//! The ignore set of a workspace: a matcher compiled from the ignore files
//! found under the workspace root.

use crate::text::{
    chars_of, chars_without_dot_slash, contains_char, tail_of, without_dot_slash,
};
use globset::Glob;
use ignore::gitignore::Gitignore;
use std::path::Path;
use vstd::prelude::*;

verus! {

/// The glob for the ignore files of the linter, wherever they lie.
pub const ESLINT_IGNORE_FILES: &'static str = "**/.eslintignore";

/// The glob for the ignore files of git, wherever they lie.
pub const GIT_IGNORE_FILES: &'static str = "**/.gitignore";

/// `ignore::gitignore::Gitignore`, a matcher for the globs of ignore files.
#[verifier::external_type_specification]
#[verifier::external_body]
pub struct ExGitignore(Gitignore);

/// Whether `path` begins with the characters of `prefix`.
pub open spec fn starts_with(path: Seq<char>, prefix: Seq<char>) -> bool {
    prefix.len() <= path.len() && path.subrange(0, prefix.len() as int) == prefix
}

/// Whether `path` begins at the root of the file system.
pub open spec fn is_rooted(path: Seq<char>) -> bool {
    path.len() > 0 && path[0] == '/'
}

/// What is left of `path` where a matcher strips its root from it: a path
/// with directories in it that begins with the characters of `root` loses
/// them, and one `/` behind them.
pub open spec fn without_root(path: Seq<char>, root: Seq<char>) -> Seq<char> {
    if path.contains('/') && starts_with(path, root) {
        let rest = path.skip(root.len() as int);
        if is_rooted(rest) {
            rest.skip(1)
        } else {
            rest
        }
    } else {
        path
    }
}

/// Whether `root` names the current directory: read as a path, it equals
/// `.`.
pub uninterp spec fn names_current_directory(root: Seq<char>) -> bool;

/// What a matcher makes of `path` before it matches: it drops a leading
/// `./`, and then its root, unless that root is the current directory.
pub open spec fn as_matched(path: Seq<char>, root: Seq<char>, root_is_current: bool) -> Seq<char> {
    if root_is_current {
        without_dot_slash(path)
    } else {
        without_root(without_dot_slash(path), root)
    }
}

/// Whether a matcher with the root `root` can be asked about `path`: what
/// it makes of the path is not rooted.
pub open spec fn askable(path: Seq<char>, root: Seq<char>) -> bool {
    !is_rooted(as_matched(path, root, names_current_directory(root)))
}

/// The root of `matcher`: the directory that its globs are relative to.
/// `None` where the root is no text.
pub uninterp spec fn ignore_root(matcher: Gitignore) -> Option<Seq<char>>;

/// Whether the globs of `matcher` ignore `path`, or one of the directories
/// above it.
pub uninterp spec fn ignore_verdict(matcher: Gitignore, path: Seq<char>, is_dir: bool) -> bool;

/// `Path::eq`, on `root` and `.`.
#[verifier::external_body]
pub(crate) fn is_current_directory(root: &str) -> (named: bool)
    ensures
        named == names_current_directory(root@),
{
    Path::new(root) == Path::new(".")
}

/// `Gitignore::path`: the root of the matcher, as text where it is text.
#[verifier::external_body]
pub(crate) fn matcher_root(matcher: &Gitignore) -> (root: Option<String>)
    ensures
        match root {
            Some(text) => ignore_root(*matcher) == Some(text@),
            None => ignore_root(*matcher) is None,
        },
{
    matcher.path().to_str().map(String::from)
}

/// `Gitignore::matched_path_or_any_parents`, and whether its answer is that
/// the path is ignored. The method first strips from the path a leading
/// `./` and then, unless its root is the current directory or the path is a
/// bare file name, its root and one `/` behind it; it panics where what is
/// left is rooted. An askable path is one that is not rooted after that.
#[verifier::external_body]
pub(crate) fn matcher_ignores(matcher: &Gitignore, path: &str, is_dir: bool) -> (ignored: bool)
    requires
        ignore_root(*matcher) is Some,
        askable(path@, ignore_root(*matcher)->0),
    ensures
        ignored == ignore_verdict(*matcher, path@, is_dir),
{
    matcher.matched_path_or_any_parents(path, is_dir).is_ignore()
}

/// Whether the glob `pattern` matches `path`: `None` where `pattern` is no
/// glob.
pub uninterp spec fn glob_match(pattern: Seq<char>, path: Seq<char>) -> Option<bool>;

/// `globset::Glob::new` and, on the matcher compiled from the glob,
/// `GlobMatcher::is_match`. Compiling panics where the glob grows into too
/// large an automaton, so only the two globs for ignore files are taken.
#[verifier::external_body]
pub(crate) fn glob_matches(pattern: &str, path: &str) -> (matched: Option<bool>)
    requires
        pattern@ == ESLINT_IGNORE_FILES@ || pattern@ == GIT_IGNORE_FILES@,
    ensures
        matched == glob_match(pattern@, path@),
{
    match Glob::new(pattern) {
        Ok(glob) => Some(glob.compile_matcher().is_match(path)),
        Err(_) => None,
    }
}

/// Whether a path is an ignore file, given what each of the two globs for
/// ignore files says of it.
pub open spec fn spec_names_ignore_file(eslint: Option<bool>, git: Option<bool>) -> bool {
    eslint == Some(true) || git == Some(true)
}

/// Whether `path` is an ignore file: one of the two globs for ignore files
/// matches it.
pub open spec fn spec_is_ignore_file(path: Seq<char>) -> bool {
    spec_names_ignore_file(
        glob_match(ESLINT_IGNORE_FILES@, path),
        glob_match(GIT_IGNORE_FILES@, path),
    )
}

/// Whether a path is an ignore file, given what each of the two globs for
/// ignore files says of it.
#[verifier::when_used_as_spec(spec_names_ignore_file)]
pub fn names_ignore_file(eslint: Option<bool>, git: Option<bool>) -> (named: bool)
    ensures
        named == spec_names_ignore_file(eslint, git),
{
    let by_eslint = match eslint {
        Some(matched) => matched,
        None => false,
    };
    let by_git = match git {
        Some(matched) => matched,
        None => false,
    };
    by_eslint || by_git
}

/// Whether `path`, found in the workspace, is an ignore file whose globs
/// belong in the ignore set.
pub fn is_ignore_file(path: &str) -> (named: bool)
    ensures
        named == spec_is_ignore_file(path@),
{
    let eslint = glob_matches(ESLINT_IGNORE_FILES, path);
    let git = glob_matches(GIT_IGNORE_FILES, path);
    names_ignore_file(eslint, git)
}

/// Whether `path` begins with the characters of `prefix`.
pub fn has_prefix(path: &Vec<char>, prefix: &Vec<char>) -> (found: bool)
    ensures
        found == starts_with(path@, prefix@),
{
    if prefix.len() > path.len() {
        return false;
    }
    let mut i: usize = 0;
    while i < prefix.len()
        invariant
            i <= prefix.len() <= path.len(),
            forall|j: int| 0 <= j < i ==> path@[j] == prefix@[j],
        decreases prefix.len() - i,
    {
        if path[i] != prefix[i] {
            return false;
        }
        i += 1;
    }
    assert(path@.subrange(0, prefix.len() as int) =~= prefix@);
    true
}

/// Whether what a matcher with the root `root` makes of `path` is not
/// rooted, where `root_is_current` says whether the root names the current
/// directory.
pub fn stays_unrooted(path: &Vec<char>, root: &Vec<char>, root_is_current: bool) -> (fit: bool)
    ensures
        fit == !is_rooted(as_matched(path@, root@, root_is_current)),
{
    let plain = chars_without_dot_slash(path);
    if root_is_current || !contains_char(&plain, '/') || !has_prefix(&plain, root) {
        return !(plain.len() > 0 && plain[0] == '/');
    }
    let rest = tail_of(&plain, root.len());
    if rest.len() > 0 && rest[0] == '/' {
        !(rest.len() > 1 && rest[1] == '/')
    } else {
        true
    }
}

/// Whether a matcher with the root `root` can be asked about `path`.
pub fn can_ask(path: &str, root: &str) -> (fit: bool)
    ensures
        fit == askable(path@, root@),
{
    stays_unrooted(&chars_of(path), &chars_of(root), is_current_directory(root))
}

} // verus!
