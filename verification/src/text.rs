//! Trimming and ASCII case folding of user-supplied text.

use vstd::prelude::*;

verus! {

/// The characters with the Unicode property `White_Space`.
pub open spec fn is_white_space(c: char) -> bool {
    let n = c as int;
    ||| 0x09 <= n <= 0x0d
    ||| n == 0x20
    ||| n == 0x85
    ||| n == 0xa0
    ||| n == 0x1680
    ||| 0x2000 <= n <= 0x200a
    ||| n == 0x2028
    ||| n == 0x2029
    ||| n == 0x202f
    ||| n == 0x205f
    ||| n == 0x3000
}

/// Every character of `s` is white space.
pub open spec fn is_blank(s: Seq<char>) -> bool {
    forall|i: int| 0 <= i < s.len() ==> is_white_space(#[trigger] s[i])
}

/// `s` without its leading and trailing white space.
pub open spec fn trimmed(s: Seq<char>) -> Seq<char>
    decreases s.len(),
{
    if s.len() == 0 {
        s
    } else if is_white_space(s.first()) {
        trimmed(s.drop_first())
    } else if is_white_space(s.last()) {
        trimmed(s.drop_last())
    } else {
        s
    }
}

/// `A` to `Z` mapped to `a` to `z`; every other character is kept.
pub open spec fn lower_char(c: char) -> char {
    if 'A' <= c <= 'Z' {
        (c as int + 32) as char
    } else {
        c
    }
}

/// `s` with its ASCII letters in lower case.
pub open spec fn lowered(s: Seq<char>) -> Seq<char> {
    s.map_values(|c: char| lower_char(c))
}

/// The contents of an optional string slice.
pub open spec fn slice_view(s: Option<&str>) -> Option<Seq<char>> {
    match s {
        Some(s) => Some(s@),
        None => None,
    }
}

/// The contents of an optional string.
pub open spec fn string_view(s: Option<String>) -> Option<Seq<char>> {
    match s {
        Some(s) => Some(s@),
        None => None,
    }
}

/// `str::trim` returns the slice without its leading and trailing characters
/// that have the property `White_Space`.
pub assume_specification[ str::trim ](s: &str) -> (res: &str)
    ensures
        res@ == trimmed(s@),
;

/// `str::to_ascii_lowercase` maps `A` to `Z` to `a` to `z` and keeps every
/// other character.
pub assume_specification[ str::to_ascii_lowercase ](s: &str) -> (res: String)
    ensures
        res@ == lowered(s@),
;

/// `str::eq_ignore_ascii_case` compares the two slices as if both were in
/// ASCII lower case.
pub assume_specification[ str::eq_ignore_ascii_case ](s: &str, other: &str) -> (res: bool)
    ensures
        res == (lowered(s@) == lowered(other@)),
;

/// Text of white space alone trims to nothing.
pub proof fn lemma_trim_blank(s: Seq<char>)
    requires
        is_blank(s),
    ensures
        trimmed(s) == Seq::<char>::empty(),
    decreases s.len(),
{
    if s.len() > 0 {
        assert(is_white_space(s[0]));
        assert forall|i: int| 0 <= i < s.drop_first().len() implies is_white_space(
            #[trigger] s.drop_first()[i],
        ) by {
            assert(s.drop_first()[i] == s[i + 1]);
        }
        lemma_trim_blank(s.drop_first());
    }
}

proof fn lemma_trim_suffix(s: Seq<char>, after: Seq<char>)
    requires
        is_blank(after),
    ensures
        trimmed(s + after) == trimmed(s),
    decreases s.len() + after.len(),
{
    let whole = s + after;
    if after.len() == 0 {
        assert(whole =~= s);
    } else if s.len() == 0 {
        assert(whole =~= after);
        lemma_trim_blank(after);
        assert(trimmed(s) =~= Seq::<char>::empty());
    } else if is_white_space(s.first()) {
        assert(whole.first() == s.first());
        assert(whole.drop_first() =~= s.drop_first() + after);
        lemma_trim_suffix(s.drop_first(), after);
    } else {
        assert(whole.first() == s.first());
        assert(is_white_space(after[after.len() - 1]));
        assert(whole.last() == after.last());
        assert(whole.drop_last() =~= s + after.drop_last());
        assert forall|i: int| 0 <= i < after.drop_last().len() implies is_white_space(
            #[trigger] after.drop_last()[i],
        ) by {
            assert(after.drop_last()[i] == after[i]);
        }
        lemma_trim_suffix(s, after.drop_last());
    }
}

/// White space around a text does not change what it trims to.
pub proof fn law_padding_is_ignored(before: Seq<char>, s: Seq<char>, after: Seq<char>)
    requires
        is_blank(before),
        is_blank(after),
    ensures
        trimmed(before + s + after) == trimmed(s),
    decreases before.len(),
{
    let whole = before + s + after;
    if before.len() == 0 {
        assert(whole =~= s + after);
        lemma_trim_suffix(s, after);
    } else {
        assert(is_white_space(before[0]));
        assert(whole.first() == before.first());
        assert(whole.drop_first() =~= before.drop_first() + s + after);
        assert forall|i: int| 0 <= i < before.drop_first().len() implies is_white_space(
            #[trigger] before.drop_first()[i],
        ) by {
            assert(before.drop_first()[i] == before[i + 1]);
        }
        law_padding_is_ignored(before.drop_first(), s, after);
    }
}

proof fn lemma_trim_bounds(s: Seq<char>) -> (bounds: (int, int))
    ensures
        0 <= bounds.0 <= bounds.1 <= s.len(),
        trimmed(s) == s.subrange(bounds.0, bounds.1),
        forall|k: int|
            0 <= k < bounds.0 || bounds.1 <= k < s.len() ==> is_white_space(#[trigger] s[k]),
        bounds.0 < bounds.1 ==> !is_white_space(s[bounds.0]) && !is_white_space(s[bounds.1 - 1]),
    decreases s.len(),
{
    if s.len() == 0 {
        assert(s.subrange(0, 0) =~= s);
        (0, 0)
    } else if is_white_space(s.first()) {
        let rest = s.drop_first();
        let b = lemma_trim_bounds(rest);
        assert(rest.subrange(b.0, b.1) =~= s.subrange(b.0 + 1, b.1 + 1));
        assert forall|k: int|
            0 <= k < b.0 + 1 || b.1 + 1 <= k < s.len() implies is_white_space(#[trigger] s[k]) by {
            if k > 0 {
                assert(is_white_space(rest[k - 1]));
            }
        }
        (b.0 + 1, b.1 + 1)
    } else if is_white_space(s.last()) {
        let rest = s.drop_last();
        let b = lemma_trim_bounds(rest);
        assert(rest.subrange(b.0, b.1) =~= s.subrange(b.0, b.1));
        assert forall|k: int| 0 <= k < b.0 || b.1 <= k < s.len() implies is_white_space(
            #[trigger] s[k],
        ) by {
            if k < s.len() - 1 {
                assert(is_white_space(rest[k]));
            }
        }
        b
    } else {
        assert(s.subrange(0, s.len() as int) =~= s);
        (0, s.len() as int)
    }
}

/// Trimming takes away white space at both ends, all of it, and nothing else.
pub proof fn law_trim_takes_the_margins(s: Seq<char>)
    ensures
        exists|from: int, to: int| #[trigger]
            s.subrange(from, to) == trimmed(s) && 0 <= from <= to <= s.len() && (forall|k: int|
                0 <= k < from || to <= k < s.len() ==> is_white_space(#[trigger] s[k])),
        trimmed(s).len() > 0 ==> !is_white_space(trimmed(s)[0]) && !is_white_space(
            trimmed(s)[trimmed(s).len() - 1],
        ),
{
    let b = lemma_trim_bounds(s);
    assert(s.subrange(b.0, b.1) == trimmed(s));
}

/// Trimming a trimmed text changes nothing.
pub proof fn law_trim_is_idempotent(s: Seq<char>)
    ensures
        trimmed(trimmed(s)) == trimmed(s),
    decreases s.len(),
{
    if s.len() > 0 {
        if is_white_space(s.first()) {
            law_trim_is_idempotent(s.drop_first());
        } else if is_white_space(s.last()) {
            law_trim_is_idempotent(s.drop_last());
        }
    }
}

/// Lowering maps each capital ASCII letter to its small one, in its place, and
/// touches nothing else.
pub proof fn law_lowering_touches_capitals_only(s: Seq<char>)
    ensures
        lowered(s).len() == s.len(),
        forall|i: int|
            0 <= i < s.len() ==> #[trigger] lowered(s)[i] as int == (if 'A' <= s[i] <= 'Z' {
                s[i] as int + 32
            } else {
                s[i] as int
            }),
{
}

proof fn lemma_lower_char_keeps_white_space(c: char)
    ensures
        is_white_space(lower_char(c)) == is_white_space(c),
{
}

/// Trimming and lowering commute.
pub proof fn lemma_trim_lowered(s: Seq<char>)
    ensures
        trimmed(lowered(s)) == lowered(trimmed(s)),
    decreases s.len(),
{
    if s.len() > 0 {
        lemma_lower_char_keeps_white_space(s.first());
        lemma_lower_char_keeps_white_space(s.last());
        assert(lowered(s).drop_first() =~= lowered(s.drop_first()));
        assert(lowered(s).drop_last() =~= lowered(s.drop_last()));
        if is_white_space(s.first()) {
            lemma_trim_lowered(s.drop_first());
        } else if is_white_space(s.last()) {
            lemma_trim_lowered(s.drop_last());
        }
    } else {
        assert(lowered(s) =~= s);
    }
}

} // verus!
