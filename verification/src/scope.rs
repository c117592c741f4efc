//! Where a branch operation takes place: in the local repository or on one of
//! its configured remotes.

use crate::text::{copy_range, has_prefix_at, to_chars};
use vstd::prelude::*;

verus! {

/// The scope of a branch operation.
#[derive(Debug, Clone, PartialEq, Eq)]
pub enum BranchScope {
    /// Branches of the local repository.
    Local,
    /// Branches of the remote named `remote`.
    Remote { remote: String },
}

/// The model of a [`BranchScope`].
pub enum ScopeView {
    Local,
    Remote { remote: Seq<char> },
}

impl View for BranchScope {
    type V = ScopeView;

    open spec fn view(&self) -> ScopeView {
        match *self {
            BranchScope::Local => ScopeView::Local,
            BranchScope::Remote { remote } => ScopeView::Remote { remote: remote@ },
        }
    }
}

/// Whether `pattern` begins with the name of `remote` followed by `/`.
pub open spec fn names_remote(pattern: Seq<char>, remote: Seq<char>) -> bool {
    remote.push('/').is_prefix_of(pattern)
}

/// The scope that `pattern` addresses and the pattern left for the branch
/// names. The first of `remotes` whose name and a `/` open the pattern wins,
/// and that prefix is removed; with no such remote the scope is local and the
/// pattern stays whole.
pub open spec fn resolve(pattern: Seq<char>, remotes: Seq<Seq<char>>) -> (ScopeView, Seq<char>)
    decreases remotes.len(),
{
    if remotes.len() == 0 {
        (ScopeView::Local, pattern)
    } else if names_remote(pattern, remotes.first()) {
        (
            ScopeView::Remote { remote: remotes.first() },
            pattern.skip(remotes.first().len() as int + 1),
        )
    } else {
        resolve(pattern, remotes.drop_first())
    }
}

/// Resolves the scope of `pattern` against the configured remotes, in the
/// order in which they are given.
pub fn parse_branch_pattern(pattern: &str, remotes: &Vec<String>) -> (r: (BranchScope, String))
    ensures
        (r.0@, r.1@) == resolve(pattern@, remotes.deep_view()),
{
    let chars = to_chars(pattern);
    let ghost all = remotes.deep_view();
    assert(all.skip(0) == all);
    let mut i: usize = 0;
    while i < remotes.len()
        invariant
            i <= remotes.len(),
            chars@ == pattern@,
            all == remotes.deep_view(),
            resolve(pattern@, all) == resolve(pattern@, all.skip(i as int)),
        decreases remotes.len() - i,
    {
        let name = to_chars(remotes[i].as_str());
        let ghost rest = all.skip(i as int);
        assert(rest.first() == name@);
        assert(rest.drop_first() == all.skip(i + 1));
        let n = name.len();
        if n < chars.len() && has_prefix_at(&chars, 0, &name) && chars[n] == '/' {
            assert(chars@.skip(0) == chars@);
            assert(name@.push('/') =~= chars@.subrange(0, n + 1));
            let core = copy_range(pattern, n + 1, chars.len());
            return (BranchScope::Remote { remote: remotes[i].clone() }, core);
        }
        proof {
            if names_remote(pattern@, name@) {
                let p = name@.push('/');
                assert(p == chars@.subrange(0, p.len() as int));
                assert(p[n as int] == '/');
                assert(chars@.skip(0) == chars@);
                assert(name@ =~= chars@.subrange(0, n as int)) by {
                    assert forall|k: int| 0 <= k < n implies name@[k] == chars@[k] by {
                        assert(p[k] == name@[k]);
                    }
                }
            }
        }
        i = i + 1;
    }
    assert(all.skip(i as int).len() == 0);
    (BranchScope::Local, pattern.to_owned())
}

/// Scope resolution names a remote only if that remote is configured and the
/// pattern reads as its name, a `/` and the remaining pattern; it stays local
/// only if no configured remote opens the pattern, and then keeps the pattern.
pub proof fn lemma_resolve_sound(pattern: Seq<char>, remotes: Seq<Seq<char>>)
    ensures
        match resolve(pattern, remotes).0 {
            ScopeView::Local => {
                &&& resolve(pattern, remotes).1 == pattern
                &&& forall|i: int| 0 <= i < remotes.len() ==> !names_remote(pattern, remotes[i])
            },
            ScopeView::Remote { remote } => {
                &&& remotes.contains(remote)
                &&& remote.push('/') + resolve(pattern, remotes).1 == pattern
            },
        },
    decreases remotes.len(),
{
    if remotes.len() == 0 {
    } else if names_remote(pattern, remotes.first()) {
        let r = remotes.first();
        assert(remotes[0] == r);
        assert(r.push('/') + pattern.skip(r.len() as int + 1) =~= pattern);
    } else {
        let tail = remotes.drop_first();
        lemma_resolve_sound(pattern, tail);
        match resolve(pattern, tail).0 {
            ScopeView::Local => {
                assert forall|i: int| 0 <= i < remotes.len() implies !names_remote(
                    pattern,
                    remotes[i],
                ) by {
                    if i > 0 {
                        assert(remotes[i] == tail[i - 1]);
                    }
                }
            },
            ScopeView::Remote { remote } => {
                let j = choose|j: int| 0 <= j < tail.len() && tail[j] == remote;
                assert(remotes[j + 1] == remote);
            },
        }
    }
}

/// The first configured remote that opens the pattern wins: no remote listed
/// before the resolved one opens the pattern.
pub proof fn lemma_resolve_first_wins(pattern: Seq<char>, remotes: Seq<Seq<char>>, i: int)
    requires
        0 <= i < remotes.len(),
        names_remote(pattern, remotes[i]),
        forall|k: int| 0 <= k < i ==> !names_remote(pattern, remotes[k]),
    ensures
        resolve(pattern, remotes) == (
            ScopeView::Remote { remote: remotes[i] },
            pattern.skip(remotes[i].len() as int + 1),
        ),
    decreases i,
{
    if i > 0 {
        let tail = remotes.drop_first();
        assert(tail[i - 1] == remotes[i]);
        assert forall|k: int| 0 <= k < i - 1 implies !names_remote(pattern, tail[k]) by {
            assert(tail[k] == remotes[k + 1]);
        }
        lemma_resolve_first_wins(pattern, tail, i - 1);
    }
}

} // verus!
