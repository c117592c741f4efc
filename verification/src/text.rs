//! Character-level text helpers: whitespace trimming, splitting on a
//! separator, prefix and substring tests, and decimal rendering.
//!
//! Text is modelled as `Seq<char>`, the view of `str` and `String`. The
//! executable helpers work on a `Vec<char>` copy of the text and describe
//! pieces of it by index ranges, so that no piece is copied before it is
//! known to be needed.

use vstd::prelude::*;
use vstd::string::StringExecFns;

verus! {

/// Whether `c` has the Unicode `White_Space` property.
pub open spec fn is_whitespace(c: char) -> bool {
    let u = c as u32;
    ||| 0x09 <= u <= 0x0D
    ||| u == 0x20
    ||| u == 0x85
    ||| u == 0xA0
    ||| u == 0x1680
    ||| 0x2000 <= u <= 0x200A
    ||| u == 0x2028
    ||| u == 0x2029
    ||| u == 0x202F
    ||| u == 0x205F
    ||| u == 0x3000
}

/// `s` without its leading whitespace.
pub open spec fn trim_start(s: Seq<char>) -> Seq<char>
    decreases s.len(),
{
    if s.len() > 0 && is_whitespace(s.first()) {
        trim_start(s.drop_first())
    } else {
        s
    }
}

/// `s` without its trailing whitespace.
pub open spec fn trim_end(s: Seq<char>) -> Seq<char>
    decreases s.len(),
{
    if s.len() > 0 && is_whitespace(s.last()) {
        trim_end(s.drop_last())
    } else {
        s
    }
}

/// `s` without leading and trailing whitespace.
pub open spec fn trim(s: Seq<char>) -> Seq<char> {
    trim_end(trim_start(s))
}

/// The fields of `s` between occurrences of `sep`, in order. There is always
/// at least one field; `n` separators give `n + 1` fields, some possibly empty.
pub open spec fn split(s: Seq<char>, sep: char) -> Seq<Seq<char>>
    decreases s.len(),
{
    if s.len() == 0 {
        seq![Seq::<char>::empty()]
    } else if s.last() == sep {
        split(s.drop_last(), sep).push(Seq::<char>::empty())
    } else {
        let before = split(s.drop_last(), sep);
        before.drop_last().push(before.last().push(s.last()))
    }
}

/// Whether `needle` occurs in `s` as a contiguous run of characters.
pub open spec fn contains_text(s: Seq<char>, needle: Seq<char>) -> bool {
    exists|i: int| 0 <= i <= s.len() && #[trigger] needle.is_prefix_of(s.skip(i))
}

/// The character that writes the decimal digit `d`.
pub open spec fn digit_char(d: nat) -> char {
    if d == 0 {
        '0'
    } else if d == 1 {
        '1'
    } else if d == 2 {
        '2'
    } else if d == 3 {
        '3'
    } else if d == 4 {
        '4'
    } else if d == 5 {
        '5'
    } else if d == 6 {
        '6'
    } else if d == 7 {
        '7'
    } else if d == 8 {
        '8'
    } else {
        '9'
    }
}

/// The decimal digits of `n`, most significant first, without leading zeros.
pub open spec fn decimal(n: nat) -> Seq<char>
    decreases n,
{
    if n < 10 {
        seq![digit_char(n)]
    } else {
        decimal(n / 10).push(digit_char(n % 10))
    }
}

/// The view of an optional text.
pub open spec fn text_view(text: Option<&str>) -> Option<Seq<char>> {
    match text {
        Some(t) => Some(t@),
        None => None,
    }
}

/// The characters of `s`, in order.
pub fn to_chars(s: &str) -> (out: Vec<char>)
    ensures
        out@ == s@,
{
    broadcast use vstd::string::group_string_axioms;

    let mut out: Vec<char> = Vec::new();
    for c in it: s.chars()
        invariant
            it.seq() == s@,
            out@ == it.seq().take(it.index()),
    {
        out.push(c);
    }
    out
}

/// Tests a character for whitespace.
pub fn is_whitespace_char(c: char) -> (b: bool)
    ensures
        b == is_whitespace(c),
{
    let u: u32 = c as u32;
    (0x09 <= u && u <= 0x0D) || u == 0x20 || u == 0x85 || u == 0xA0 || u == 0x1680 || (0x2000 <= u
        && u <= 0x200A) || u == 0x2028 || u == 0x2029 || u == 0x202F || u == 0x205F || u == 0x3000
}

/// The first index in `lo..hi` at which `chars` holds no whitespace, or `hi`.
pub(crate) fn skip_whitespace(chars: &Vec<char>, lo: usize, hi: usize) -> (a: usize)
    requires
        lo <= hi <= chars.len(),
    ensures
        lo <= a <= hi,
        chars@.subrange(a as int, hi as int) == trim_start(chars@.subrange(lo as int, hi as int)),
{
    let ghost whole = chars@.subrange(lo as int, hi as int);
    let mut a: usize = lo;
    while a < hi && is_whitespace_char(chars[a])
        invariant
            lo <= a <= hi <= chars.len(),
            trim_start(whole) == trim_start(chars@.subrange(a as int, hi as int)),
        decreases hi - a,
    {
        assert(chars@.subrange(a as int, hi as int).drop_first() == chars@.subrange(
            a + 1,
            hi as int,
        ));
        a = a + 1;
    }
    a
}

/// Narrows the range `lo..hi` of `chars` to the part left after trimming.
pub(crate) fn trim_range(chars: &Vec<char>, lo: usize, hi: usize) -> (r: (usize, usize))
    requires
        lo <= hi <= chars.len(),
    ensures
        lo <= r.0 <= r.1 <= hi,
        chars@.subrange(r.0 as int, r.1 as int) == trim(chars@.subrange(lo as int, hi as int)),
{
    let a = skip_whitespace(chars, lo, hi);
    let ghost left = chars@.subrange(a as int, hi as int);
    let mut b: usize = hi;
    while a < b && is_whitespace_char(chars[b - 1])
        invariant
            lo <= a <= b <= hi <= chars.len(),
            trim_end(left) == trim_end(chars@.subrange(a as int, b as int)),
            left == chars@.subrange(a as int, hi as int),
        decreases b - a,
    {
        assert(chars@.subrange(a as int, b as int).drop_last() == chars@.subrange(
            a as int,
            b - 1,
        ));
        b = b - 1;
    }
    (a, b)
}

/// The characters `lo..hi` of `chars` as a vector of their own.
pub(crate) fn copy_chars(chars: &Vec<char>, lo: usize, hi: usize) -> (out: Vec<char>)
    requires
        lo <= hi <= chars.len(),
    ensures
        out@ == chars@.subrange(lo as int, hi as int),
{
    let mut out: Vec<char> = Vec::new();
    let mut j: usize = lo;
    while j < hi
        invariant
            lo <= j <= hi <= chars.len(),
            out@ == chars@.subrange(lo as int, j as int),
        decreases hi - j,
    {
        out.push(chars[j]);
        assert(chars@.subrange(lo as int, j + 1) == chars@.subrange(lo as int, j as int).push(
            chars@[j as int],
        ));
        j = j + 1;
    }
    out
}

/// Mapping and then filtering one element more either appends the image of
/// that element or changes nothing.
pub proof fn lemma_map_filter_next<A, B>(
    s: Seq<A>,
    i: int,
    f: spec_fn(A) -> B,
    keep: spec_fn(B) -> bool,
)
    requires
        0 <= i < s.len(),
    ensures
        s.take(i + 1).map_values(f).filter(keep) == if keep(f(s[i])) {
            s.take(i).map_values(f).filter(keep).push(f(s[i]))
        } else {
            s.take(i).map_values(f).filter(keep)
        },
{
    assert(s.take(i + 1).map_values(f) =~= s.take(i).map_values(f).push(f(s[i])));
    s.take(i).map_values(f).lemma_filter_push(f(s[i]), keep);
}

/// Compares the range `lo..hi` of `chars` with all of `other`.
pub(crate) fn range_equals(chars: &Vec<char>, lo: usize, hi: usize, other: &Vec<char>) -> (b: bool)
    requires
        lo <= hi <= chars.len(),
    ensures
        b == (chars@.subrange(lo as int, hi as int) == other@),
{
    if hi - lo != other.len() {
        return false;
    }
    let ghost piece = chars@.subrange(lo as int, hi as int);
    let mut i: usize = 0;
    while i < other.len()
        invariant
            lo <= hi <= chars.len(),
            hi - lo == other.len(),
            i <= other.len(),
            piece == chars@.subrange(lo as int, hi as int),
            forall|k: int| 0 <= k < i ==> piece[k] == other@[k],
        decreases other.len() - i,
    {
        if chars[lo + i] != other[i] {
            assert(piece[i as int] != other@[i as int]);
            return false;
        }
        i = i + 1;
    }
    assert(piece =~= other@);
    true
}

/// Compares two texts character by character.
pub fn text_equals(a: &str, b: &str) -> (r: bool)
    ensures
        r == (a@ == b@),
{
    let left = to_chars(a);
    let right = to_chars(b);
    assert(left@.subrange(0, left@.len() as int) == left@);
    range_equals(&left, 0, left.len(), &right)
}

/// Tests whether `prefix` is a prefix of the part of `chars` that starts at `from`.
pub(crate) fn has_prefix_at(chars: &Vec<char>, from: usize, prefix: &Vec<char>) -> (b: bool)
    requires
        from <= chars.len(),
    ensures
        b == prefix@.is_prefix_of(chars@.skip(from as int)),
{
    if chars.len() - from < prefix.len() {
        return false;
    }
    let ghost rest = chars@.skip(from as int);
    let mut i: usize = 0;
    while i < prefix.len()
        invariant
            from <= chars.len(),
            prefix.len() <= chars.len() - from,
            i <= prefix.len(),
            rest == chars@.skip(from as int),
            forall|k: int| 0 <= k < i ==> rest[k] == prefix@[k],
        decreases prefix.len() - i,
    {
        if chars[from + i] != prefix[i] {
            assert(rest.subrange(0, prefix@.len() as int)[i as int] != prefix@[i as int]);
            return false;
        }
        i = i + 1;
    }
    assert(rest.subrange(0, prefix@.len() as int) =~= prefix@);
    true
}

/// Tests whether `needle` occurs somewhere in `chars`.
pub(crate) fn contains_chars(chars: &Vec<char>, needle: &Vec<char>) -> (b: bool)
    ensures
        b == contains_text(chars@, needle@),
{
    let mut i: usize = 0;
    while i < chars.len()
        invariant
            i <= chars.len(),
            forall|k: int| 0 <= k < i ==> !#[trigger] needle@.is_prefix_of(chars@.skip(k)),
        decreases chars.len() - i,
    {
        if has_prefix_at(chars, i, needle) {
            return true;
        }
        i = i + 1;
    }
    has_prefix_at(chars, i, needle)
}

/// Splits `chars` at every `sep` and returns the bounds of each field.
pub(crate) fn split_ranges(chars: &Vec<char>, sep: char) -> (fields: Vec<(usize, usize)>)
    ensures
        fields.len() == split(chars@, sep).len(),
        forall|i: int|
            0 <= i < fields.len() ==> {
                &&& (#[trigger] fields[i]).0 <= fields[i].1 <= chars.len()
                &&& chars@.subrange(fields[i].0 as int, fields[i].1 as int) == split(
                    chars@,
                    sep,
                )[i]
            },
{
    let mut fields: Vec<(usize, usize)> = Vec::new();
    let mut start: usize = 0;
    let mut i: usize = 0;
    while i < chars.len()
        invariant
            start <= i <= chars.len(),
            split(chars@.take(i as int), sep).len() == fields.len() + 1,
            split(chars@.take(i as int), sep).last() == chars@.subrange(start as int, i as int),
            forall|k: int|
                0 <= k < fields.len() ==> {
                    &&& (#[trigger] fields[k]).0 <= fields[k].1 <= chars.len()
                    &&& chars@.subrange(fields[k].0 as int, fields[k].1 as int) == split(
                        chars@.take(i as int),
                        sep,
                    )[k]
                },
        decreases chars.len() - i,
    {
        let ghost before = split(chars@.take(i as int), sep);
        assert(chars@.take(i + 1).drop_last() == chars@.take(i as int));
        assert(chars@.take(i + 1).last() == chars@[i as int]);
        if chars[i] == sep {
            fields.push((start, i));
            start = i + 1;
            assert(chars@.subrange(start as int, i + 1) == Seq::<char>::empty());
        } else {
            assert(chars@.subrange(start as int, i + 1) == chars@.subrange(
                start as int,
                i as int,
            ).push(chars@[i as int]));
        }
        i = i + 1;
    }
    assert(chars@.take(i as int) == chars@);
    fields.push((start, i));
    fields
}

/// The one-character text of a decimal digit.
fn digit_str(d: usize) -> (s: &'static str)
    requires
        d < 10,
    ensures
        s@ == seq![digit_char(d as nat)],
{
    proof {
        reveal_strlit("0");
        reveal_strlit("1");
        reveal_strlit("2");
        reveal_strlit("3");
        reveal_strlit("4");
        reveal_strlit("5");
        reveal_strlit("6");
        reveal_strlit("7");
        reveal_strlit("8");
        reveal_strlit("9");
    }
    let s = if d == 0 {
        "0"
    } else if d == 1 {
        "1"
    } else if d == 2 {
        "2"
    } else if d == 3 {
        "3"
    } else if d == 4 {
        "4"
    } else if d == 5 {
        "5"
    } else if d == 6 {
        "6"
    } else if d == 7 {
        "7"
    } else if d == 8 {
        "8"
    } else {
        "9"
    };
    assert(s@ =~= seq![digit_char(d as nat)]);
    s
}

/// Writes `n` in decimal.
pub fn decimal_string(n: usize) -> (s: String)
    ensures
        s@ == decimal(n as nat),
    decreases n,
{
    if n < 10 {
        digit_str(n).to_owned()
    } else {
        let mut s = decimal_string(n / 10);
        s.append(digit_str(n % 10));
        s
    }
}

/// The three texts written one after the other.
pub fn concat3(a: &str, b: &str, c: &str) -> (out: String)
    ensures
        out@ == a@ + b@ + c@,
{
    let mut out = a.to_owned();
    out.append(b);
    out.append(c);
    out
}

/// The five texts written one after the other.
pub fn concat5(a: &str, b: &str, c: &str, d: &str, e: &str) -> (out: String)
    ensures
        out@ == a@ + b@ + c@ + d@ + e@,
{
    let mut out = a.to_owned();
    out.append(b);
    out.append(c);
    out.append(d);
    out.append(e);
    out
}

/// Copies the characters `lo..hi` of `s` into a new string.
pub(crate) fn copy_range(s: &str, lo: usize, hi: usize) -> (out: String)
    requires
        lo <= hi <= s@.len(),
    ensures
        out@ == s@.subrange(lo as int, hi as int),
{
    s.substring_char(lo, hi).to_owned()
}

/// A copy of a list of names.
pub fn copy_names(names: &Vec<String>) -> (out: Vec<String>)
    ensures
        out.deep_view() == names.deep_view(),
        out.len() == names.len(),
{
    let mut out: Vec<String> = Vec::new();
    let mut i: usize = 0;
    while i < names.len()
        invariant
            i <= names.len(),
            out.len() == i,
            forall|k: int| 0 <= k < i ==> (#[trigger] out[k])@ == names[k]@,
        decreases names.len() - i,
    {
        out.push(names[i].clone());
        i = i + 1;
    }
    assert(out.deep_view() =~= names.deep_view());
    out
}

/// The texts `parts` written one after the other with `sep` between them.
pub open spec fn join_with(parts: Seq<Seq<char>>, sep: char) -> Seq<char>
    decreases parts.len(),
{
    if parts.len() == 0 {
        Seq::empty()
    } else if parts.len() == 1 {
        parts[0]
    } else {
        join_with(parts.drop_last(), sep).push(sep) + parts.last()
    }
}

/// Splitting loses nothing and cuts at every separator: there is at least
/// one field, no field holds the separator, and the fields joined by the
/// separator give the text back.
pub proof fn lemma_split_exact(s: Seq<char>, sep: char)
    ensures
        split(s, sep).len() >= 1,
        forall|i: int|
            0 <= i < split(s, sep).len() ==> !(#[trigger] split(s, sep)[i]).contains(sep),
        join_with(split(s, sep), sep) == s,
    decreases s.len(),
{
    let fields = split(s, sep);
    if s.len() == 0 {
        assert(join_with(fields, sep) =~= s);
    } else {
        let before = split(s.drop_last(), sep);
        lemma_split_exact(s.drop_last(), sep);
        if s.last() == sep {
            assert(fields.drop_last() == before);
            assert(join_with(fields, sep) =~= s);
        } else {
            let grown = before.last().push(s.last());
            assert forall|i: int| 0 <= i < fields.len() implies !(#[trigger] fields[i]).contains(
                sep,
            ) by {
                if i == fields.len() - 1 {
                    if grown.contains(sep) {
                        let k = choose|k: int| 0 <= k < grown.len() && grown[k] == sep;
                        assert(before.last()[k] == sep);
                    }
                } else {
                    assert(fields[i] == before[i]);
                }
            }
            if before.len() == 1 {
                assert(join_with(fields, sep) =~= s);
            } else {
                assert(fields.drop_last() == before.drop_last());
                assert(join_with(fields, sep) =~= join_with(before, sep).push(s.last()));
                assert(join_with(fields, sep) =~= s);
            }
        }
    }
}

} // verus!
