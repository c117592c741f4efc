//! Which names are protected from deletion.
//!
//! Four names are always protected. More can be supplied as one text, a list
//! separated by commas; each entry counts with the whitespace around it
//! removed, and names are compared exactly, letter case included.

use crate::text::{
    copy_chars, range_equals, split, split_ranges, text_equals, text_view, to_chars, trim,
    trim_range,
};
use vstd::prelude::*;

verus! {

/// Whether `name` is one of the names that are always protected.
pub open spec fn is_builtin_protected(name: Seq<char>) -> bool {
    name == "main"@ || name == "master"@ || name == "develop"@ || name == "development"@
}

/// The names that the comma-separated text `list` supplies, in order.
pub open spec fn listed_names(list: Seq<char>) -> Seq<Seq<char>> {
    split(list, ',').map_values(|field: Seq<char>| trim(field))
}

/// The names that an optional list supplies; none where there is no list.
pub open spec fn extra_names(extra: Option<Seq<char>>) -> Seq<Seq<char>> {
    match extra {
        Some(list) => listed_names(list),
        None => Seq::empty(),
    }
}

/// Whether `name` is protected, given the additional names `extra`.
pub open spec fn protects(extra: Seq<Seq<char>>, name: Seq<char>) -> bool {
    is_builtin_protected(name) || extra.contains(name)
}

/// Whether `name` is protected when `extra` is the optional list of
/// additional protected names.
pub open spec fn is_protected(name: Seq<char>, extra: Option<Seq<char>>) -> bool {
    protects(extra_names(extra), name)
}

/// `protects(extra, _)` as a predicate on names.
pub open spec fn protected_by(extra: Seq<Seq<char>>) -> spec_fn(Seq<char>) -> bool {
    |name: Seq<char>| protects(extra, name)
}

/// The complement of `protected_by(extra)`.
pub open spec fn deletable_by(extra: Seq<Seq<char>>) -> spec_fn(Seq<char>) -> bool {
    |name: Seq<char>| !protects(extra, name)
}

/// The views of the character vectors in `names`.
pub open spec fn views_of(names: Seq<Vec<char>>) -> Seq<Seq<char>> {
    names.map_values(|v: Vec<char>| v@)
}

/// The protected names of one command invocation: the built-in ones and those
/// that the configuration adds.
pub struct ProtectionPolicy {
    extra: Vec<Vec<char>>,
}

/// A list of names split into those that are protected and those that may be
/// deleted, each part in the order of the list.
#[derive(Debug, Clone, PartialEq, Eq)]
pub struct MatchResult {
    pub protected: Vec<String>,
    pub deletable: Vec<String>,
}

impl ProtectionPolicy {
    /// The names that this policy protects besides the built-in ones.
    pub closed spec fn extra(&self) -> Seq<Seq<char>> {
        views_of(self.extra@)
    }

    /// Builds the policy from the optional comma-separated list of
    /// additional names.
    pub fn new(extra: Option<&str>) -> (policy: Self)
        ensures
            policy.extra() == extra_names(text_view(extra)),
    {
        let mut names: Vec<Vec<char>> = Vec::new();
        match extra {
            None => {
                assert(views_of(names@) =~= Seq::<Seq<char>>::empty());
            },
            Some(list) => {
                let chars = to_chars(list);
                let fields = split_ranges(&chars, ',');
                let ghost parts = split(chars@, ',');
                let mut i: usize = 0;
                while i < fields.len()
                    invariant
                        i <= fields.len(),
                        fields.len() == parts.len(),
                        parts == split(chars@, ','),
                        forall|k: int|
                            0 <= k < fields.len() ==> {
                                &&& (#[trigger] fields[k]).0 <= fields[k].1 <= chars.len()
                                &&& chars@.subrange(fields[k].0 as int, fields[k].1 as int)
                                    == parts[k]
                            },
                        names.len() == i,
                        forall|k: int| 0 <= k < i ==> (#[trigger] names[k])@ == trim(parts[k]),
                    decreases fields.len() - i,
                {
                    let (lo, hi) = fields[i];
                    let (a, b) = trim_range(&chars, lo, hi);
                    let name = copy_chars(&chars, a, b);
                    names.push(name);
                    i = i + 1;
                }
                assert(views_of(names@) =~= listed_names(list@));
            },
        }
        ProtectionPolicy { extra: names }
    }

    /// Decides whether `name` is protected.
    pub fn is_protected(&self, name: &str) -> (b: bool)
        ensures
            b == protects(self.extra(), name@),
    {
        if text_equals(name, "main") || text_equals(name, "master") || text_equals(name, "develop")
            || text_equals(name, "development") {
            return true;
        }
        let chars = to_chars(name);
        let mut i: usize = 0;
        while i < self.extra.len()
            invariant
                i <= self.extra.len(),
                chars@ == name@,
                forall|k: int| 0 <= k < i ==> self.extra()[k] != name@,
            decreases self.extra.len() - i,
        {
            let entry = &self.extra[i];
            assert(entry@.subrange(0, entry@.len() as int) == entry@);
            if range_equals(entry, 0, entry.len(), &chars) {
                assert(self.extra()[i as int] == name@);
                return true;
            }
            i = i + 1;
        }
        false
    }

    /// Splits `names` into the protected and the deletable ones, keeping the
    /// order of `names` in both parts.
    pub fn partition(&self, names: &Vec<String>) -> (r: MatchResult)
        ensures
            r.protected.deep_view() == names.deep_view().filter(protected_by(self.extra())),
            r.deletable.deep_view() == names.deep_view().filter(deletable_by(self.extra())),
    {
        let mut protected: Vec<String> = Vec::new();
        let mut deletable: Vec<String> = Vec::new();
        let ghost all = names.deep_view();
        let ghost keep = protected_by(self.extra());
        let ghost free = deletable_by(self.extra());
        proof {
            reveal(Seq::filter);
            assert(all.take(0).filter(keep) =~= protected.deep_view());
            assert(all.take(0).filter(free) =~= deletable.deep_view());
        }
        let mut i: usize = 0;
        while i < names.len()
            invariant
                i <= names.len(),
                all == names.deep_view(),
                keep == protected_by(self.extra()),
                free == deletable_by(self.extra()),
                protected.deep_view() == all.take(i as int).filter(keep),
                deletable.deep_view() == all.take(i as int).filter(free),
            decreases names.len() - i,
        {
            let name = &names[i];
            proof {
                assert(all.take(i + 1) == all.take(i as int).push(name@));
                all.take(i as int).lemma_filter_push(name@, keep);
                all.take(i as int).lemma_filter_push(name@, free);
            }
            let ghost before_protected = protected.deep_view();
            let ghost before_deletable = deletable.deep_view();
            if self.is_protected(name.as_str()) {
                protected.push(name.clone());
                assert(protected.deep_view() =~= before_protected.push(name@));
            } else {
                deletable.push(name.clone());
                assert(deletable.deep_view() =~= before_deletable.push(name@));
            }
            i = i + 1;
        }
        assert(all.take(i as int) == all);
        MatchResult { protected, deletable }
    }
}

/// Decides whether `name` is protected: it is one of `main`, `master`,
/// `develop` and `development`, or an entry of the comma-separated list
/// `extra`, compared after the whitespace around the entry is removed.
pub fn is_protected_branch(name: &str, extra: Option<&str>) -> (b: bool)
    ensures
        b == is_protected(name@, text_view(extra)),
{
    ProtectionPolicy::new(extra).is_protected(name)
}

/// No name is both protected and deletable, and every name of the list is one
/// of the two.
pub proof fn lemma_partition_disjoint(names: Seq<Seq<char>>, extra: Seq<Seq<char>>, name: Seq<char>)
    ensures
        !(names.filter(protected_by(extra)).contains(name) && names.filter(
            deletable_by(extra),
        ).contains(name)),
        names.contains(name) <==> (names.filter(protected_by(extra)).contains(name)
            || names.filter(deletable_by(extra)).contains(name)),
        names.filter(protected_by(extra)).contains(name) ==> protects(extra, name),
        names.filter(deletable_by(extra)).contains(name) ==> !protects(extra, name),
{
    let keep = protected_by(extra);
    let free = deletable_by(extra);
    if names.filter(keep).contains(name) {
        let j = choose|j: int| 0 <= j < names.filter(keep).len() && names.filter(keep)[j] == name;
        names.lemma_filter_pred(keep, j);
        names.lemma_filter_contains_rev(keep, name);
    }
    if names.filter(free).contains(name) {
        let j = choose|j: int| 0 <= j < names.filter(free).len() && names.filter(free)[j] == name;
        names.lemma_filter_pred(free, j);
        names.lemma_filter_contains_rev(free, name);
    }
    if names.contains(name) {
        let i = choose|i: int| 0 <= i < names.len() && names[i] == name;
        if protects(extra, name) {
            names.lemma_filter_contains(keep, i);
        } else {
            names.lemma_filter_contains(free, i);
        }
    }
}

} // verus!
