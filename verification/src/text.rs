//! Strings as sequences of characters: the handful of searches and trims the bridge needs.

use vstd::prelude::*;

verus! {

/// The characters with the Unicode property `White_Space`.
pub open spec fn is_white_space(c: char) -> bool {
    ||| '\u{9}' <= c <= '\u{d}'
    ||| c == '\u{20}'
    ||| c == '\u{85}'
    ||| c == '\u{a0}'
    ||| c == '\u{1680}'
    ||| '\u{2000}' <= c <= '\u{200a}'
    ||| c == '\u{2028}'
    ||| c == '\u{2029}'
    ||| c == '\u{202f}'
    ||| c == '\u{205f}'
    ||| c == '\u{3000}'
}

/// `needle` stands in `hay` at position `i`.
pub open spec fn occurs_at(hay: Seq<char>, needle: Seq<char>, i: int) -> bool {
    &&& 0 <= i <= hay.len() - needle.len()
    &&& hay.subrange(i, i + needle.len()) == needle
}

/// `needle` stands somewhere in `hay`.
pub open spec fn has_text(hay: Seq<char>, needle: Seq<char>) -> bool {
    exists|i: int| occurs_at(hay, needle, i)
}

/// `s` without the white space it starts with.
pub open spec fn trim_start(s: Seq<char>) -> Seq<char>
    decreases s.len(),
{
    if s.len() > 0 && is_white_space(s.first()) {
        trim_start(s.drop_first())
    } else {
        s
    }
}

/// `s` without the white space it ends with.
pub open spec fn trim_end(s: Seq<char>) -> Seq<char>
    decreases s.len(),
{
    if s.len() > 0 && is_white_space(s.last()) {
        trim_end(s.drop_last())
    } else {
        s
    }
}

/// `s` without the white space at either end.
pub open spec fn trimmed(s: Seq<char>) -> Seq<char> {
    trim_end(trim_start(s))
}

/// `s` holds nothing but white space.
pub open spec fn is_blank(s: Seq<char>) -> bool {
    forall|i: int| 0 <= i < s.len() ==> is_white_space(#[trigger] s[i])
}

/// `s` without the run of `c` it ends with.
pub open spec fn without_trailing(s: Seq<char>, c: char) -> Seq<char>
    decreases s.len(),
{
    if s.len() > 0 && s.last() == c {
        without_trailing(s.drop_last(), c)
    } else {
        s
    }
}

/// The text behind an optional string.
pub open spec fn optional_text(s: Option<String>) -> Option<Seq<char>> {
    match s {
        Some(s) => Some(s@),
        None => None,
    }
}

/// The texts behind a string or an error message.
pub open spec fn text_or_error(r: Result<String, String>) -> Result<Seq<char>, Seq<char>> {
    match r {
        Ok(s) => Ok(s@),
        Err(e) => Err(e@),
    }
}

/// Decides `is_white_space`.
fn white_space(c: char) -> (r: bool)
    ensures
        r == is_white_space(c),
{
    ('\u{9}' <= c && c <= '\u{d}') || c == '\u{20}' || c == '\u{85}' || c == '\u{a0}' || c
        == '\u{1680}' || ('\u{2000}' <= c && c <= '\u{200a}') || c == '\u{2028}' || c == '\u{2029}'
        || c == '\u{202f}' || c == '\u{205f}' || c == '\u{3000}'
}

/// The characters of `s`, in order.
pub(crate) fn chars_of(s: &str) -> (r: Vec<char>)
    ensures
        r@ == s@,
{
    let mut r: Vec<char> = Vec::new();
    for c in it: s.chars()
        invariant
            it.seq() == s@,
            r@ == s@.take(it.index()),
    {
        r.push(c);
    }
    r
}

/// Decides whether `hay` holds `needle` at position `at`.
fn matches_at(hay: &Vec<char>, needle: &Vec<char>, at: usize) -> (r: bool)
    requires
        at + needle.len() <= hay.len(),
    ensures
        r == occurs_at(hay@, needle@, at as int),
{
    let mut k: usize = 0;
    while k < needle.len()
        invariant
            k <= needle.len(),
            at + needle.len() <= hay.len(),
            forall|j: int| 0 <= j < k ==> hay@[at + j] == needle@[j],
        decreases needle.len() - k,
    {
        if hay[at + k] != needle[k] {
            assert(hay@.subrange(at as int, at + needle@.len())[k as int] != needle@[k as int]);
            return false;
        }
        k += 1;
    }
    assert(hay@.subrange(at as int, at + needle@.len()) =~= needle@);
    true
}

/// Decides whether `s` begins with `prefix`.
pub(crate) fn starts_with(s: &str, prefix: &str) -> (r: bool)
    ensures
        r == prefix@.is_prefix_of(s@),
{
    let hay = chars_of(s);
    let needle = chars_of(prefix);
    needle.len() <= hay.len() && matches_at(&hay, &needle, 0)
}

/// Decides whether `needle` stands anywhere in `s`.
pub(crate) fn contains(s: &str, needle: &str) -> (r: bool)
    ensures
        r == has_text(s@, needle@),
{
    let hay = chars_of(s);
    let wanted = chars_of(needle);
    if wanted.len() > hay.len() {
        return false;
    }
    let mut at: usize = 0;
    while at <= hay.len() - wanted.len()
        invariant
            at <= hay.len() - wanted.len() + 1,
            wanted.len() <= hay.len(),
            hay@ == s@,
            wanted@ == needle@,
            forall|j: int| 0 <= j < at ==> !occurs_at(hay@, wanted@, j),
        decreases hay.len() - wanted.len() + 1 - at,
    {
        if matches_at(&hay, &wanted, at) {
            return true;
        }
        if at == hay.len() - wanted.len() {
            return false;
        }
        at += 1;
    }
    false
}

/// Decides whether `a` and `b` hold the same characters.
pub(crate) fn same_text(a: &str, b: &str) -> (r: bool)
    ensures
        r == (a@ == b@),
{
    let left = chars_of(a);
    let right = chars_of(b);
    if left.len() != right.len() {
        return false;
    }
    let r = matches_at(&left, &right, 0);
    assert(left@.subrange(0, left@.len() as int) =~= left@);
    r
}

/// `s` without the white space at either end.
pub(crate) fn trim(s: &str) -> (r: &str)
    ensures
        r@ == trimmed(s@),
{
    let chars = chars_of(s);
    let mut from: usize = 0;
    assert(s@.skip(0) =~= s@);
    while from < chars.len() && white_space(chars[from])
        invariant
            from <= chars.len(),
            chars@ == s@,
            trim_start(s@.skip(from as int)) == trim_start(s@),
        decreases chars.len() - from,
    {
        assert(s@.skip(from as int).drop_first() =~= s@.skip(from + 1));
        from += 1;
    }
    let ghost kept = s@.skip(from as int);
    assert(trim_start(s@) == kept);
    let mut to: usize = chars.len();
    assert(s@.subrange(from as int, to as int) =~= kept);
    while from < to && white_space(chars[to - 1])
        invariant
            from <= to <= chars.len(),
            chars@ == s@,
            trim_end(s@.subrange(from as int, to as int)) == trim_end(kept),
        decreases to - from,
    {
        assert(s@.subrange(from as int, to as int).drop_last() =~= s@.subrange(
            from as int,
            to - 1,
        ));
        to -= 1;
    }
    s.substring_char(from, to)
}

/// `s` without the run of `c` it ends with.
pub(crate) fn trim_end_matches(s: &str, c: char) -> (r: &str)
    ensures
        r@ == without_trailing(s@, c),
{
    let chars = chars_of(s);
    let mut to: usize = chars.len();
    assert(s@.take(to as int) =~= s@);
    while to > 0 && chars[to - 1] == c
        invariant
            to <= chars.len(),
            chars@ == s@,
            without_trailing(s@.take(to as int), c) == without_trailing(s@, c),
        decreases to,
    {
        assert(s@.take(to as int).drop_last() =~= s@.take(to - 1));
        to -= 1;
    }
    assert(s@.subrange(0, to as int) =~= s@.take(to as int));
    s.substring_char(0, to)
}

/// `a` followed by `b`.
pub(crate) fn join(a: &str, b: &str) -> (r: String)
    ensures
        r@ == a@ + b@,
{
    let mut r = a.to_owned();
    r.append(b);
    r
}

/// Trimming leaves a stretch of the text, drops nothing but white space, and leaves no white
/// space at either end.
pub proof fn trimmed_is_the_text_between_the_white_space(s: Seq<char>)
    ensures
        exists|from: int, to: int|
            {
                &&& 0 <= from <= to <= s.len()
                &&& trimmed(s) == #[trigger] s.subrange(from, to)
                &&& is_blank(s.take(from))
                &&& is_blank(s.skip(to))
            },
        trimmed(s).len() > 0 ==> !is_white_space(trimmed(s).first()) && !is_white_space(
            trimmed(s).last(),
        ),
{
    let from = start_of_kept(s);
    lemma_trim_start(s);
    let kept = trim_start(s);
    lemma_trim_end(kept);
    let to = from + trim_end(kept).len();
    assert(trimmed(s) =~= s.subrange(from, to));
    assert forall|i: int| 0 <= i < s.skip(to).len() implies is_white_space(
        #[trigger] s.skip(to)[i],
    ) by {
        assert(s.skip(to)[i] == kept.skip(trim_end(kept).len() as int)[i]);
    }
    if trimmed(s).len() > 0 {
        assert(trimmed(s).first() == kept.first());
    }
}

/// Where the text that `trim_start` keeps begins.
spec fn start_of_kept(s: Seq<char>) -> int {
    s.len() - trim_start(s).len()
}

proof fn lemma_trim_start(s: Seq<char>)
    ensures
        trim_start(s).len() <= s.len(),
        trim_start(s) == s.skip(start_of_kept(s)),
        is_blank(s.take(start_of_kept(s))),
        trim_start(s).len() > 0 ==> !is_white_space(trim_start(s).first()),
    decreases s.len(),
{
    if s.len() > 0 && is_white_space(s.first()) {
        let rest = s.drop_first();
        lemma_trim_start(rest);
        assert(rest.skip(start_of_kept(rest)) =~= s.skip(start_of_kept(s)));
        assert forall|i: int| 0 <= i < s.take(start_of_kept(s)).len() implies is_white_space(
            #[trigger] s.take(start_of_kept(s))[i],
        ) by {
            if i > 0 {
                assert(s.take(start_of_kept(s))[i] == rest.take(start_of_kept(rest))[i - 1]);
            }
        }
    } else {
        assert(s.skip(0) =~= s);
    }
}

proof fn lemma_trim_end(s: Seq<char>)
    ensures
        trim_end(s).len() <= s.len(),
        trim_end(s) == s.take(trim_end(s).len() as int),
        is_blank(s.skip(trim_end(s).len() as int)),
        trim_end(s).len() > 0 ==> !is_white_space(trim_end(s).last()),
    decreases s.len(),
{
    if s.len() > 0 && is_white_space(s.last()) {
        let rest = s.drop_last();
        lemma_trim_end(rest);
        let n = trim_end(s).len() as int;
        assert(rest.take(n) =~= s.take(n));
        assert forall|i: int| 0 <= i < s.skip(n).len() implies is_white_space(
            #[trigger] s.skip(n)[i],
        ) by {
            if i < rest.skip(n).len() {
                assert(s.skip(n)[i] == rest.skip(n)[i]);
            }
        }
    } else {
        assert(s.take(s.len() as int) =~= s);
    }
}

/// A text trims to nothing exactly when it is all white space.
pub proof fn blank_texts_trim_to_nothing(s: Seq<char>)
    ensures
        trimmed(s).len() == 0 <==> is_blank(s),
{
    lemma_trim_start(s);
    lemma_trim_end(trim_start(s));
    let n = start_of_kept(s);
    if trimmed(s).len() == 0 {
        let kept = trim_start(s);
        assert forall|i: int| 0 <= i < s.len() implies is_white_space(#[trigger] s[i]) by {
            if i < n {
                assert(s[i] == s.take(n)[i]);
            } else {
                assert(s[i] == kept.skip(0)[i - n]);
            }
        }
    } else {
        assert(trimmed(s).first() == trim_start(s).first());
        assert(s[n] == trim_start(s).first());
    }
}

/// Trimming a trimmed text changes nothing.
pub proof fn trimming_twice_is_trimming_once(s: Seq<char>)
    ensures
        trimmed(trimmed(s)) == trimmed(s),
{
    trimmed_is_the_text_between_the_white_space(s);
}

/// White space is tabs, line breaks, spaces of every width and nothing else, by code point.
pub proof fn white_space_by_code_point(c: char)
    ensures
        is_white_space(c) <==> ({
            let n = c as u32;
            ||| 9 <= n <= 13
            ||| n == 32 || n == 133 || n == 160 || n == 5760
            ||| 8192 <= n <= 8202
            ||| n == 8232 || n == 8233 || n == 8239 || n == 8287 || n == 12288
        }),
{
}

/// A text is blank exactly when no character of it is anything but white space.
pub proof fn blank_texts_show_nothing(s: Seq<char>)
    ensures
        is_blank(s) <==> !exists|i: int| 0 <= i < s.len() && !is_white_space(#[trigger] s[i]),
{
}

/// Whatever stands before and after it, a text is found in the middle of another.
pub proof fn parts_are_found(before: Seq<char>, needle: Seq<char>, after: Seq<char>)
    ensures
        has_text(before + needle + after, needle),
{
    let hay = before + needle + after;
    let i = before.len() as int;
    assert(hay.subrange(i, i + needle.len()) =~= needle);
    assert(occurs_at(hay, needle, i));
}

/// A text that is found in another splits it into what stands before and after.
pub proof fn found_texts_are_parts(hay: Seq<char>, needle: Seq<char>)
    requires
        has_text(hay, needle),
    ensures
        exists|before: Seq<char>, after: Seq<char>| hay == #[trigger] (before + needle + after),
{
    let i = choose|i: int| occurs_at(hay, needle, i);
    let before = hay.take(i);
    let after = hay.skip(i + needle.len());
    assert forall|k: int| 0 <= k < hay.len() implies hay[k] == (before + needle + after)[k] by {
        if i <= k < i + needle.len() {
            assert(needle[k - i] == hay.subrange(i, i + needle.len())[k - i]);
        }
    }
    assert(hay =~= before + needle + after);
}

/// Trimming cuts `before` and `after` off and nothing else, wherever these are white space and
/// what is between them neither starts nor ends with any.
pub proof fn trimming_cuts_off_what_is_around(
    before: Seq<char>,
    kept: Seq<char>,
    after: Seq<char>,
)
    requires
        forall|i: int| 0 <= i < before.len() ==> is_white_space(#[trigger] before[i]),
        forall|i: int| 0 <= i < after.len() ==> is_white_space(#[trigger] after[i]),
        kept.len() > 0,
        !is_white_space(kept[0]),
        !is_white_space(kept[kept.len() - 1]),
    ensures
        trimmed(before + kept + after) == kept,
{
    let s = before + kept + after;
    trimmed_is_the_text_between_the_white_space(s);
    let (from, to) = choose|from: int, to: int|
        {
            &&& 0 <= from <= to <= s.len()
            &&& trimmed(s) == #[trigger] s.subrange(from, to)
            &&& is_blank(s.take(from))
            &&& is_blank(s.skip(to))
        };
    let a = before.len() as int;
    let b = a + kept.len();
    assert(s[a] == kept[0]);
    assert(s[b - 1] == kept[kept.len() - 1]);
    if from > a {
        assert(s.take(from)[a] == s[a]);
    }
    if to < b {
        assert(s.skip(to)[b - 1 - to] == s[b - 1]);
    }
    assert(trimmed(s).len() > 0);
    if from < a {
        assert(trimmed(s).first() == s[from]);
        assert(s[from] == before[from]);
    }
    if to > b {
        assert(trimmed(s).last() == s[to - 1]);
        assert(s[to - 1] == after[to - 1 - b]);
    }
    assert(s.subrange(a, b) =~= kept);
}

/// Cutting off a trailing run of `c` cuts off exactly that: the text is what was kept and then
/// nothing but `c`, and what was kept does not end with `c`.
pub proof fn trailing_runs_are_cut_off_whole(s: Seq<char>, c: char)
    ensures
        ({
            let kept = without_trailing(s, c);
            &&& kept.len() <= s.len()
            &&& kept == s.take(kept.len() as int)
            &&& forall|i: int| kept.len() <= i < s.len() ==> #[trigger] s[i] == c
            &&& kept.len() > 0 ==> kept[kept.len() - 1] != c
        }),
    decreases s.len(),
{
    if s.len() > 0 && s.last() == c {
        let rest = s.drop_last();
        trailing_runs_are_cut_off_whole(rest, c);
        let n = without_trailing(s, c).len() as int;
        assert(rest.take(n) =~= s.take(n));
        assert forall|i: int| n <= i < s.len() implies #[trigger] s[i] == c by {
            if i < rest.len() {
                assert(rest[i] == c);
            }
        }
    } else {
        assert(s.take(s.len() as int) =~= s);
    }
}

} // verus!
