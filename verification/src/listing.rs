//! Reading what git prints.
//!
//! The front end runs git and hands over whether the command succeeded and
//! what it wrote to standard output; the functions here turn that text into
//! names. A listing is read line by line, the lines being what stands between
//! line feeds, and keeps the order of the lines.

use crate::error::{CleanError, CleanErrorView};
use crate::scope::names_remote;
use crate::text::{
    contains_chars, contains_text, copy_chars, copy_range, has_prefix_at, is_whitespace,
    is_whitespace_char, lemma_map_filter_next, range_equals, skip_whitespace, split,
    split_ranges, to_chars, trim, trim_range, trim_start,
};
use crate::worktree::{file_name, name_range};
use vstd::prelude::*;

verus! {

/// The lines of `text`, each trimmed.
pub open spec fn trimmed_lines(text: Seq<char>) -> Seq<Seq<char>> {
    split(text, '\n').map_values(|l: Seq<char>| trim(l))
}

/// The predicate of texts that are not empty.
pub open spec fn is_filled() -> spec_fn(Seq<char>) -> bool {
    |s: Seq<char>| s.len() > 0
}

/// The predicate of texts that are not empty and differ from `current`.
pub open spec fn is_other(current: Seq<char>) -> spec_fn(Seq<char>) -> bool {
    |s: Seq<char>| s.len() > 0 && s != current
}

/// The predicate of lines that name a branch on `remote`: they begin with
/// the remote's name and `/`, and do not mention `HEAD`.
pub open spec fn is_on_remote(remote: Seq<char>) -> spec_fn(Seq<char>) -> bool {
    |l: Seq<char>| names_remote(l, remote) && !contains_text(l, "HEAD"@)
}

/// Removes the name of `remote` and the `/` after it from the front of a line.
pub open spec fn without_remote(remote: Seq<char>) -> spec_fn(Seq<char>) -> Seq<char> {
    |l: Seq<char>| l.skip(remote.len() as int + 1)
}

/// The characters of `s` up to its first whitespace.
pub open spec fn word(s: Seq<char>) -> Seq<char>
    decreases s.len(),
{
    if s.len() == 0 || is_whitespace(s.first()) {
        Seq::empty()
    } else {
        seq![s.first()] + word(s.drop_first())
    }
}

/// The first run of characters of `s` that are not whitespace; empty where
/// there is none.
pub open spec fn first_word(s: Seq<char>) -> Seq<char> {
    word(trim_start(s))
}

/// The name of the worktree that a line of the worktree listing is about:
/// the final component of the path with which the line begins.
pub open spec fn listed_worktree() -> spec_fn(Seq<char>) -> Seq<char> {
    |l: Seq<char>| file_name(first_word(l))
}

/// The predicate of worktree names that are offered for cleaning: not empty,
/// not `bare`, and not `current`.
pub open spec fn is_other_worktree(current: Seq<char>) -> spec_fn(Seq<char>) -> bool {
    |n: Seq<char>| n.len() > 0 && n != "bare"@ && n != current
}

/// The repository root that `git rev-parse --show-toplevel` reported.
pub open spec fn git_root_of(success: bool, stdout: Seq<char>) -> Result<
    Seq<char>,
    CleanErrorView,
> {
    if success {
        Ok(trim(stdout))
    } else {
        Err(CleanErrorView::NotARepository)
    }
}

/// The branch that `git rev-parse --abbrev-ref HEAD` reported.
pub open spec fn current_branch_of(success: bool, stdout: Seq<char>) -> Result<
    Seq<char>,
    CleanErrorView,
> {
    if success {
        Ok(trim(stdout))
    } else {
        Err(CleanErrorView::ListingFailure("Failed to get current branch"@))
    }
}

/// The remotes that `git remote` reported: its lines that are not blank.
/// Where the command failed there are none.
pub open spec fn configured_remotes(success: bool, stdout: Seq<char>) -> Seq<Seq<char>> {
    if success {
        trimmed_lines(stdout).filter(is_filled())
    } else {
        Seq::empty()
    }
}

/// The local branches that `git branch` reported, without the one checked
/// out.
pub open spec fn local_branches(success: bool, stdout: Seq<char>, current: Seq<char>) -> Result<
    Seq<Seq<char>>,
    CleanErrorView,
> {
    if success {
        Ok(trimmed_lines(stdout).filter(is_other(current)))
    } else {
        Err(CleanErrorView::ListingFailure("Failed to list local branches"@))
    }
}

/// The branches on `remote` that `git branch -r` reported, named without
/// the remote.
pub open spec fn remote_branches(success: bool, stdout: Seq<char>, remote: Seq<char>) -> Result<
    Seq<Seq<char>>,
    CleanErrorView,
> {
    if success {
        Ok(trimmed_lines(stdout).filter(is_on_remote(remote)).map_values(without_remote(remote)))
    } else {
        Err(CleanErrorView::ListingFailure("Failed to list remote branches"@))
    }
}

/// The worktrees that `git worktree list` reported, without the one that the
/// directory `current_dir` is.
pub open spec fn existing_worktrees(
    success: bool,
    stdout: Seq<char>,
    current_dir: Seq<char>,
) -> Result<Seq<Seq<char>>, CleanErrorView> {
    if success {
        Ok(
            split(stdout, '\n').map_values(listed_worktree()).filter(
                is_other_worktree(file_name(current_dir)),
            ),
        )
    } else {
        Err(CleanErrorView::ListingFailure("Failed to list worktrees"@))
    }
}

/// The model of a listing that may have failed.
pub open spec fn listing_view(r: Result<Vec<String>, CleanError>) -> Result<
    Seq<Seq<char>>,
    CleanErrorView,
> {
    match r {
        Ok(names) => Ok(names.deep_view()),
        Err(e) => Err(e@),
    }
}

/// The model of a text that may be missing.
pub open spec fn text_result_view(r: Result<String, CleanError>) -> Result<
    Seq<char>,
    CleanErrorView,
> {
    match r {
        Ok(text) => Ok(text@),
        Err(e) => Err(e@),
    }
}

/// `text` without the whitespace around it.
pub fn trimmed(text: &str) -> (out: String)
    ensures
        out@ == trim(text@),
{
    let chars = to_chars(text);
    assert(chars@.subrange(0, chars@.len() as int) == chars@);
    let (a, b) = trim_range(&chars, 0, chars.len());
    copy_range(text, a, b)
}

/// Reads the answer of `git rev-parse --show-toplevel`.
pub fn get_git_root(success: bool, stdout: &str) -> (r: Result<String, CleanError>)
    ensures
        text_result_view(r) == git_root_of(success, stdout@),
{
    if success {
        Ok(trimmed(stdout))
    } else {
        Err(CleanError::NotARepository)
    }
}

/// Reads the answer of `git rev-parse --abbrev-ref HEAD`.
pub fn get_current_branch(success: bool, stdout: &str) -> (r: Result<String, CleanError>)
    ensures
        text_result_view(r) == current_branch_of(success, stdout@),
{
    if success {
        Ok(trimmed(stdout))
    } else {
        Err(CleanError::ListingFailure("Failed to get current branch".to_owned()))
    }
}

/// The trimmed lines of `text` that are not empty and differ from `current`.
fn other_lines(text: &str, current: &str) -> (out: Vec<String>)
    ensures
        out.deep_view() == trimmed_lines(text@).filter(is_other(current@)),
{
    let chars = to_chars(text);
    let other = to_chars(current);
    let fields = split_ranges(&chars, '\n');
    let ghost parts = split(chars@, '\n');
    let ghost f = |l: Seq<char>| trim(l);
    let ghost keep = is_other(current@);
    let mut out: Vec<String> = Vec::new();
    proof {
        reveal(Seq::filter);
        assert(parts.take(0).map_values(f).filter(keep) =~= out.deep_view());
    }
    let mut i: usize = 0;
    while i < fields.len()
        invariant
            i <= fields.len(),
            fields.len() == parts.len(),
            chars@ == text@,
            other@ == current@,
            keep == is_other(current@),
            f == (|l: Seq<char>| trim(l)),
            forall|k: int|
                0 <= k < fields.len() ==> {
                    &&& (#[trigger] fields[k]).0 <= fields[k].1 <= chars.len()
                    &&& chars@.subrange(fields[k].0 as int, fields[k].1 as int) == parts[k]
                },
            out.deep_view() == parts.take(i as int).map_values(f).filter(keep),
        decreases fields.len() - i,
    {
        let (lo, hi) = fields[i];
        let (a, b) = trim_range(&chars, lo, hi);
        proof {
            lemma_map_filter_next(parts, i as int, f, keep);
        }
        let ghost before = out.deep_view();
        if a < b && !range_equals(&chars, a, b, &other) {
            out.push(copy_range(text, a, b));
            assert(out.deep_view() =~= before.push(trim(parts[i as int])));
        }
        i = i + 1;
    }
    assert(parts.take(i as int) == parts);
    out
}

/// Reads the answer of `git remote`: the names of the configured remotes, in
/// the order in which git printed them. A failure of the command gives no
/// remotes and is no error.
pub fn get_configured_remotes(success: bool, stdout: &str) -> (out: Vec<String>)
    ensures
        out.deep_view() == configured_remotes(success, stdout@),
{
    if !success {
        let out: Vec<String> = Vec::new();
        assert(out.deep_view() =~= Seq::<Seq<char>>::empty());
        return out;
    }
    let out = other_lines(stdout, "");
    proof {
        reveal_strlit("");
        assert(is_other(""@) =~= is_filled());
    }
    out
}

/// Reads the answer of `git branch --format=%(refname:short)`: the local
/// branches but `current`, the one checked out, in the order in which git
/// printed them.
pub fn get_local_branches(success: bool, stdout: &str, current: &str) -> (r: Result<
    Vec<String>,
    CleanError,
>)
    ensures
        listing_view(r) == local_branches(success, stdout@, current@),
{
    if !success {
        return Err(CleanError::ListingFailure("Failed to list local branches".to_owned()));
    }
    Ok(other_lines(stdout, current))
}

/// Reads the answer of `git branch -r`: the branches on `remote`, named
/// without the remote, in the order in which git printed them. Lines that
/// mention `HEAD` are left out.
pub fn get_remote_branches(success: bool, stdout: &str, remote: &str) -> (r: Result<
    Vec<String>,
    CleanError,
>)
    ensures
        listing_view(r) == remote_branches(success, stdout@, remote@),
{
    if !success {
        return Err(CleanError::ListingFailure("Failed to list remote branches".to_owned()));
    }
    let chars = to_chars(stdout);
    let mut prefix = to_chars(remote);
    prefix.push('/');
    let head = to_chars("HEAD");
    let fields = split_ranges(&chars, '\n');
    let ghost parts = split(chars@, '\n');
    let ghost f = |l: Seq<char>| trim(l);
    let ghost keep = is_on_remote(remote@);
    let ghost cut = without_remote(remote@);
    let mut out: Vec<String> = Vec::new();
    proof {
        reveal(Seq::filter);
        assert(parts.take(0).map_values(f).filter(keep).map_values(cut) =~= out.deep_view());
    }
    let mut i: usize = 0;
    while i < fields.len()
        invariant
            i <= fields.len(),
            fields.len() == parts.len(),
            chars@ == stdout@,
            prefix@ == remote@.push('/'),
            head@ == "HEAD"@,
            keep == is_on_remote(remote@),
            cut == without_remote(remote@),
            f == (|l: Seq<char>| trim(l)),
            forall|k: int|
                0 <= k < fields.len() ==> {
                    &&& (#[trigger] fields[k]).0 <= fields[k].1 <= chars.len()
                    &&& chars@.subrange(fields[k].0 as int, fields[k].1 as int) == parts[k]
                },
            out.deep_view() == parts.take(i as int).map_values(f).filter(keep).map_values(cut),
        decreases fields.len() - i,
    {
        let (lo, hi) = fields[i];
        let (a, b) = trim_range(&chars, lo, hi);
        let row = copy_chars(&chars, a, b);
        proof {
            lemma_map_filter_next(parts, i as int, f, keep);
            assert(row@.skip(0) == row@);
        }
        let ghost before = out.deep_view();
        let ghost kept = parts.take(i as int).map_values(f).filter(keep);
        if has_prefix_at(&row, 0, &prefix) && !contains_chars(&row, &head) {
            assert(prefix@.len() <= row@.len());
            out.push(copy_range(stdout, a + prefix.len(), b));
            assert(chars@.subrange(a + prefix.len(), b as int) =~= row@.skip(
                remote@.len() as int + 1,
            ));
            assert(out.deep_view() =~= before.push(cut(row@)));
            assert(kept.push(row@).map_values(cut) =~= kept.map_values(cut).push(cut(row@)));
        }
        i = i + 1;
    }
    assert(parts.take(i as int) == parts);
    Ok(out)
}

/// The index in `from..hi` at which the word that begins at `from` ends.
fn word_end(chars: &Vec<char>, from: usize, hi: usize) -> (w: usize)
    requires
        from <= hi <= chars.len(),
    ensures
        from <= w <= hi,
        chars@.subrange(from as int, w as int) == word(chars@.subrange(from as int, hi as int)),
{
    let ghost whole = chars@.subrange(from as int, hi as int);
    let mut w: usize = from;
    assert(chars@.subrange(from as int, from as int) + word(whole) =~= word(whole));
    while w < hi && !is_whitespace_char(chars[w])
        invariant
            from <= w <= hi <= chars.len(),
            whole == chars@.subrange(from as int, hi as int),
            word(whole) == chars@.subrange(from as int, w as int) + word(
                chars@.subrange(w as int, hi as int),
            ),
        decreases hi - w,
    {
        let ghost rest = chars@.subrange(w as int, hi as int);
        assert(rest.drop_first() == chars@.subrange(w + 1, hi as int));
        assert(chars@.subrange(from as int, w as int) + (seq![rest.first()] + word(
            rest.drop_first(),
        )) =~= chars@.subrange(from as int, w + 1) + word(rest.drop_first()));
        w = w + 1;
    }
    assert(chars@.subrange(from as int, w as int) + Seq::<char>::empty() =~= chars@.subrange(
        from as int,
        w as int,
    ));
    w
}

/// Reads the answer of `git worktree list`: the names of the worktrees, each
/// the final component of the path that begins its line, in the order in
/// which git printed them. Left out are the worktree that is the directory
/// `current_dir` and an entry named `bare`.
pub fn get_existing_worktrees(success: bool, stdout: &str, current_dir: &str) -> (r: Result<
    Vec<String>,
    CleanError,
>)
    ensures
        listing_view(r) == existing_worktrees(success, stdout@, current_dir@),
{
    if !success {
        return Err(CleanError::ListingFailure("Failed to list worktrees".to_owned()));
    }
    let chars = to_chars(stdout);
    let here = to_chars(current_dir);
    let (here_start, here_end) = name_range(&here);
    let current = copy_chars(&here, here_start, here_end);
    let bare = to_chars("bare");
    let fields = split_ranges(&chars, '\n');
    let ghost parts = split(chars@, '\n');
    let ghost f = listed_worktree();
    let ghost keep = is_other_worktree(file_name(current_dir@));
    let mut out: Vec<String> = Vec::new();
    proof {
        reveal(Seq::filter);
        assert(parts.take(0).map_values(f).filter(keep) =~= out.deep_view());
    }
    let mut i: usize = 0;
    while i < fields.len()
        invariant
            i <= fields.len(),
            fields.len() == parts.len(),
            chars@ == stdout@,
            current@ == file_name(current_dir@),
            bare@ == "bare"@,
            keep == is_other_worktree(file_name(current_dir@)),
            f == listed_worktree(),
            forall|k: int|
                0 <= k < fields.len() ==> {
                    &&& (#[trigger] fields[k]).0 <= fields[k].1 <= chars.len()
                    &&& chars@.subrange(fields[k].0 as int, fields[k].1 as int) == parts[k]
                },
            out.deep_view() == parts.take(i as int).map_values(f).filter(keep),
        decreases fields.len() - i,
    {
        let (lo, hi) = fields[i];
        let a = skip_whitespace(&chars, lo, hi);
        let w = word_end(&chars, a, hi);
        let path = copy_chars(&chars, a, w);
        let (k, e) = name_range(&path);
        proof {
            lemma_map_filter_next(parts, i as int, f, keep);
            assert(path@ == first_word(parts[i as int]));
            assert(chars@.subrange(a + k, a + e) =~= path@.subrange(k as int, e as int));
        }
        let ghost before = out.deep_view();
        if k < e && !range_equals(&chars, a + k, a + e, &bare) && !range_equals(
            &chars,
            a + k,
            a + e,
            &current,
        ) {
            out.push(copy_range(stdout, a + k, a + e));
            assert(out.deep_view() =~= before.push(f(parts[i as int])));
        }
        i = i + 1;
    }
    assert(parts.take(i as int) == parts);
    Ok(out)
}

} // verus!
