//! Where worktrees live on disk.
//!
//! Paths are texts whose components are separated by `/`, as git prints
//! them. At the end of a path a `/` and a component `.` do not count, and a
//! path that ends in the component `..` has no final component to name
//! anything by. The worktrees of a repository are kept beside it: for a
//! repository at `<parent>/<repo>`, the worktree `<name>` is at
//! `<parent>/.worktrees/<repo>/<name>`.

use crate::error::CleanError;
use crate::text::{copy_range, to_chars};
use vstd::prelude::*;
use vstd::string::StringExecFns;

verus! {

/// The index at which the final component of `path` begins: just after its
/// last `/`, or 0 where it has none.
pub open spec fn name_start(path: Seq<char>) -> int
    decreases path.len(),
{
    if path.len() == 0 {
        0
    } else if path.last() == '/' {
        path.len() as int
    } else {
        name_start(path.drop_last())
    }
}

/// Whether the last character of `path` is a `.` that is a component of its
/// own.
pub open spec fn ends_in_dot(path: Seq<char>) -> bool {
    path.len() > 0 && path.last() == '.' && (path.len() == 1 || path[path.len() - 2] == '/')
}

/// `path` without the `/` characters and the `.` components at its end.
pub open spec fn strip_slashes(path: Seq<char>) -> Seq<char>
    decreases path.len(),
{
    if path.len() > 0 && (path.last() == '/' || ends_in_dot(path)) {
        strip_slashes(path.drop_last())
    } else {
        path
    }
}

/// The last component of `path` that is not a `.`; empty where there is none.
pub open spec fn last_component(path: Seq<char>) -> Seq<char> {
    let p = strip_slashes(path);
    p.skip(name_start(p))
}

/// The final component of `path` where it names something; empty where the
/// path has no component but `.`, or ends in the component `..`.
pub open spec fn file_name(path: Seq<char>) -> Seq<char> {
    if last_component(path) == ".."@ {
        Seq::empty()
    } else {
        last_component(path)
    }
}

/// The path that holds the final component of `path`: what stands before the
/// `/` that introduces it, the root `/` itself kept, and nothing for a path of
/// one component.
pub open spec fn parent(path: Seq<char>) -> Seq<char> {
    let p = strip_slashes(path);
    let k = name_start(p);
    if k <= 1 {
        p.take(k)
    } else {
        p.take(k - 1)
    }
}

/// `base` extended by the component `name`.
pub open spec fn join(base: Seq<char>, name: Seq<char>) -> Seq<char> {
    if base.len() == 0 {
        name
    } else if base.last() == '/' {
        base + name
    } else {
        base.push('/') + name
    }
}

/// The directory that holds the worktrees of the repository at `git_root`.
pub open spec fn worktree_base(git_root: Seq<char>) -> Seq<char> {
    join(join(parent(git_root), ".worktrees"@), file_name(git_root))
}

/// The path of the worktree `name` of the repository at `git_root`.
pub open spec fn worktree_path(git_root: Seq<char>, name: Seq<char>) -> Seq<char> {
    join(worktree_base(git_root), name)
}

/// `name_start` lies within the path, and nothing from there on is a `/`.
pub proof fn lemma_name_start(path: Seq<char>)
    ensures
        0 <= name_start(path) <= path.len(),
        name_start(path) > 0 ==> path[name_start(path) - 1] == '/',
        forall|i: int| name_start(path) <= i < path.len() ==> path[i] != '/',
    decreases path.len(),
{
    if path.len() > 0 && path.last() != '/' {
        let init = path.drop_last();
        lemma_name_start(init);
        assert forall|i: int| name_start(path) <= i < path.len() implies path[i] != '/' by {
            if i < init.len() {
                assert(init[i] == path[i]);
            }
        }
    }
}

/// Finds the final component of `chars`: where it begins and where it ends.
/// The range is empty where there is none.
pub(crate) fn name_range(chars: &Vec<char>) -> (r: (usize, usize))
    ensures
        r.0 <= r.1 <= chars.len(),
        chars@.subrange(r.0 as int, r.1 as int) == file_name(chars@),
        r.0 < r.1 ==> chars@.take(r.1 as int) == strip_slashes(chars@),
        r.0 < r.1 ==> r.0 == name_start(strip_slashes(chars@)),
{
    let mut e: usize = chars.len();
    assert(chars@.take(e as int) == chars@);
    while e > 0 && (chars[e - 1] == '/' || (chars[e - 1] == '.' && (e == 1 || chars[e - 2]
        == '/')))
        invariant
            e <= chars.len(),
            strip_slashes(chars@) == strip_slashes(chars@.take(e as int)),
        decreases e,
    {
        assert(chars@.take(e as int).drop_last() == chars@.take(e - 1));
        e = e - 1;
    }
    let ghost p = chars@.take(e as int);
    assert(strip_slashes(p) == p);
    let mut k: usize = e;
    assert(p.take(k as int) == p);
    while k > 0 && chars[k - 1] != '/'
        invariant
            k <= e <= chars.len(),
            p == chars@.take(e as int),
            name_start(p) == name_start(p.take(k as int)),
        decreases k,
    {
        assert(p.take(k as int).drop_last() == p.take(k - 1));
        k = k - 1;
    }
    assert(chars@.subrange(k as int, e as int) == p.skip(k as int));
    proof {
        reveal_strlit("..");
    }
    if e - k == 2 && chars[k] == '.' && chars[k + 1] == '.' {
        assert(chars@.subrange(k as int, e as int) =~= ".."@);
        assert(chars@.subrange(k as int, k as int) =~= Seq::<char>::empty());
        (k, k)
    } else {
        assert(chars@.subrange(k as int, e as int) != ".."@) by {
            if chars@.subrange(k as int, e as int) == ".."@ {
                assert(chars@.subrange(k as int, e as int)[0] == '.');
                assert(chars@.subrange(k as int, e as int)[1] == '.');
            }
        }
        (k, e)
    }
}

/// Extends `base` by the component `name`.
pub(crate) fn join_path(base: String, name: &str) -> (out: String)
    ensures
        out@ == join(base@, name@),
{
    let chars = to_chars(base.as_str());
    if chars.len() == 0 {
        return name.to_owned();
    }
    let mut out = base;
    if chars[chars.len() - 1] != '/' {
        proof {
            reveal_strlit("/");
        }
        out.append("/");
        assert(out@ == chars@.push('/'));
    }
    out.append(name);
    out
}

/// The name of the repository at `git_root`: the final component of that path.
/// Fails where the path has none.
pub fn get_repo_name(git_root: &str) -> (r: Result<String, CleanError>)
    ensures
        match r {
            Ok(name) => name@ == file_name(git_root@) && name@.len() > 0,
            Err(e) => e == CleanError::NoRepositoryName && file_name(git_root@).len() == 0,
        },
{
    let chars = to_chars(git_root);
    let (k, e) = name_range(&chars);
    if k == e {
        return Err(CleanError::NoRepositoryName);
    }
    Ok(copy_range(git_root, k, e))
}

/// The directory that holds the worktrees of the repository at `git_root`.
/// Fails where the repository has no name.
pub fn get_worktree_base_path(git_root: &str) -> (r: Result<String, CleanError>)
    ensures
        match r {
            Ok(path) => path@ == worktree_base(git_root@) && file_name(git_root@).len() > 0,
            Err(e) => e == CleanError::NoRepositoryName && file_name(git_root@).len() == 0,
        },
{
    let chars = to_chars(git_root);
    let (k, e) = name_range(&chars);
    if k == e {
        return Err(CleanError::NoRepositoryName);
    }
    let name = copy_range(git_root, k, e);
    let above = if k <= 1 {
        copy_range(git_root, 0, k)
    } else {
        copy_range(git_root, 0, k - 1)
    };
    proof {
        let p = strip_slashes(chars@);
        assert(chars@.subrange(0, k as int) == p.take(k as int));
        if k > 1 {
            assert(chars@.subrange(0, k - 1) == p.take(k - 1));
        }
    }
    let hidden = join_path(above, ".worktrees");
    Ok(join_path(hidden, name.as_str()))
}

/// The path of the worktree `worktree_name` of the repository at `git_root`.
/// Fails where the repository has no name.
pub fn get_worktree_path(git_root: &str, worktree_name: &str) -> (r: Result<String, CleanError>)
    ensures
        match r {
            Ok(path) => path@ == worktree_path(git_root@, worktree_name@) && file_name(
                git_root@,
            ).len() > 0,
            Err(e) => e == CleanError::NoRepositoryName && file_name(git_root@).len() == 0,
        },
{
    match get_worktree_base_path(git_root) {
        Ok(base) => Ok(join_path(base, worktree_name)),
        Err(e) => Err(e),
    }
}

/// What has to be done to add a worktree.
#[derive(Debug, Clone, PartialEq, Eq)]
pub struct AddPlan {
    /// The directory that holds the worktrees; it is created if missing.
    pub base_path: String,
    /// The path at which the new worktree is checked out.
    pub worktree_path: String,
    /// The arguments with which git adds the worktree.
    pub command: Vec<String>,
}

/// The arguments with which git adds a worktree at `path`.
pub open spec fn add_args(path: Seq<char>) -> Seq<Seq<char>> {
    seq!["worktree"@, "add"@, path]
}

/// Plans the addition of the worktree `name` to the repository at
/// `git_root`: where it goes and how git is called. Fails where the
/// repository has no name.
pub fn add_worktree(git_root: &str, name: &str) -> (r: Result<AddPlan, CleanError>)
    ensures
        match r {
            Ok(plan) => {
                &&& file_name(git_root@).len() > 0
                &&& plan.base_path@ == worktree_base(git_root@)
                &&& plan.worktree_path@ == worktree_path(git_root@, name@)
                &&& plan.command.deep_view() == add_args(worktree_path(git_root@, name@))
            },
            Err(e) => e == CleanError::NoRepositoryName && file_name(git_root@).len() == 0,
        },
{
    let base_path = match get_worktree_base_path(git_root) {
        Ok(path) => path,
        Err(e) => {
            return Err(e);
        },
    };
    let worktree_path = join_path(base_path.clone(), name);
    let mut command: Vec<String> = Vec::new();
    command.push("worktree".to_owned());
    command.push("add".to_owned());
    command.push(worktree_path.clone());
    assert(command.deep_view() =~= add_args(worktree_path@));
    Ok(AddPlan { base_path, worktree_path, command })
}

} // verus!
