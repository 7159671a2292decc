//! Text primitives on sequences of Unicode scalar values: prefix tests,
//! replacement, trimming and splitting into words.

use vstd::prelude::*;

verus! {

/// Whether `c` has the Unicode `White_Space` property, as
/// `char::is_whitespace` decides it.
pub uninterp spec fn unicode_whitespace(c: char) -> bool;

/// Trusted: `char::is_whitespace` depends on the character alone; its answer
/// is what [`unicode_whitespace`] names.
pub assume_specification[ char::is_whitespace ](c: char) -> (r: bool)
    ensures
        r == unicode_whitespace(c),
;

/// Trusted: `String::push` appends the character to the end of the string.
pub assume_specification[ String::push ](s: &mut String, c: char)
    ensures
        final(s)@ == old(s)@.push(c),
;

/// The characters of `s`, in order.
pub fn chars_of(s: &str) -> (chars: Vec<char>)
    ensures
        chars@ == s@,
{
    let mut chars: Vec<char> = Vec::new();
    for c in it: s.chars()
        invariant
            it.seq() == s@,
            chars@ == it.seq().take(it.index() as int),
    {
        chars.push(c);
    }
    chars
}

/// The string made of `chars[from..to]`.
pub fn string_of(chars: &Vec<char>, from: usize, to: usize) -> (s: String)
    requires
        from <= to <= chars.len(),
    ensures
        s@ == chars@.subrange(from as int, to as int),
{
    let mut s = String::new();
    let mut i: usize = from;
    while i < to
        invariant
            from <= i <= to <= chars.len(),
            s@ == chars@.subrange(from as int, i as int),
        decreases to - i,
    {
        s.push(chars[i]);
        i += 1;
    }
    s
}

/// Whether `pat` occurs in `text` at index `at`.
pub fn matches_at(text: &Vec<char>, at: usize, pat: &Vec<char>) -> (found: bool)
    requires
        at <= text.len(),
    ensures
        found == pat@.is_prefix_of(text@.skip(at as int)),
{
    if pat.len() > text.len() - at {
        return false;
    }
    let mut j: usize = 0;
    while j < pat.len()
        invariant
            at <= text.len(),
            pat.len() <= text.len() - at,
            j <= pat.len(),
            forall|k: int| 0 <= k < j ==> text@[at + k] == pat@[k],
        decreases pat.len() - j,
    {
        if text[at + j] != pat[j] {
            return false;
        }
        j += 1;
    }
    true
}

/// Whether `s` begins with `prefix`.
pub fn starts_with(s: &str, prefix: &str) -> (r: bool)
    ensures
        r == prefix@.is_prefix_of(s@),
{
    let text = chars_of(s);
    let pat = chars_of(prefix);
    let r = matches_at(&text, 0, &pat);
    r
}

/// `s` with `sep` before its first character, between each two, and after the
/// last.
pub open spec fn interleaved(s: Seq<char>, sep: Seq<char>) -> Seq<char>
    decreases s.len(),
{
    if s.len() == 0 {
        sep
    } else {
        sep + seq![s[0]] + interleaved(s.skip(1), sep)
    }
}

/// `s` with every occurrence of `from` replaced by `to`. Occurrences are
/// found from the left and do not overlap. An empty `from` occurs before
/// every character and at the end.
pub open spec fn replaced(s: Seq<char>, from: Seq<char>, to: Seq<char>) -> Seq<char>
    decreases s.len(),
{
    if from.len() == 0 {
        interleaved(s, to)
    } else if from.is_prefix_of(s) {
        to + replaced(s.skip(from.len() as int), from, to)
    } else if s.len() == 0 {
        s
    } else {
        seq![s[0]] + replaced(s.skip(1), from, to)
    }
}

/// Replaces every occurrence of `from` in `s` by `to`.
pub fn replace_all(s: &str, from: &str, to: &str) -> (r: String)
    ensures
        r@ == replaced(s@, from@, to@),
{
    let text = chars_of(s);
    let pat = chars_of(from);
    let mut out = String::new();
    let mut i: usize = 0;
    assert(text@.skip(0) =~= text@);
    if pat.len() == 0 {
        while i < text.len()
            invariant
                i <= text.len(),
                interleaved(text@, to@) == out@ + interleaved(text@.skip(i as int), to@),
            decreases text.len() - i,
        {
            out.append(to);
            out.push(text[i]);
            assert(text@.skip(i as int).skip(1) =~= text@.skip(i + 1));
            i += 1;
        }
        out.append(to);
        return out;
    }
    while i < text.len()
        invariant
            i <= text.len(),
            pat@.len() > 0,
            replaced(text@, pat@, to@) == out@ + replaced(text@.skip(i as int), pat@, to@),
        decreases text.len() - i,
    {
        if matches_at(&text, i, &pat) {
            out.append(to);
            assert(text@.skip(i as int).skip(pat@.len() as int) =~= text@.skip(i + pat@.len()));
            i += pat.len();
        } else {
            out.push(text[i]);
            assert(text@.skip(i as int).skip(1) =~= text@.skip(i + 1));
            i += 1;
        }
    }
    out
}

/// Whether `pat` occurs in `text` just before index `end`.
pub fn matches_before(text: &Vec<char>, end: usize, pat: &Vec<char>) -> (found: bool)
    requires
        end <= text.len(),
    ensures
        found == pat@.is_suffix_of(text@.take(end as int)),
{
    if pat.len() > end {
        return false;
    }
    let start: usize = end - pat.len();
    matches_at(text, start, pat)
}

/// `s` without the occurrences of `pat` that it begins with, however many
/// follow one another. An empty `pat` takes nothing away.
pub open spec fn without_prefixes(s: Seq<char>, pat: Seq<char>) -> Seq<char>
    decreases s.len(),
{
    if pat.len() > 0 && pat.is_prefix_of(s) {
        without_prefixes(s.skip(pat.len() as int), pat)
    } else {
        s
    }
}

/// `s` without the occurrences of `pat` that it ends with, however many
/// follow one another. An empty `pat` takes nothing away.
pub open spec fn without_suffixes(s: Seq<char>, pat: Seq<char>) -> Seq<char>
    decreases s.len(),
{
    if pat.len() > 0 && pat.is_suffix_of(s) {
        without_suffixes(s.take(s.len() - pat.len()), pat)
    } else {
        s
    }
}

/// Once the leading occurrences of `pat` are taken away, what is left does
/// not begin with `pat`.
pub proof fn lemma_without_prefixes_done(s: Seq<char>, pat: Seq<char>)
    requires
        pat.len() > 0,
    ensures
        !pat.is_prefix_of(without_prefixes(s, pat)),
    decreases s.len(),
{
    if pat.is_prefix_of(s) {
        lemma_without_prefixes_done(s.skip(pat.len() as int), pat);
    }
}

/// Once the trailing occurrences of `pat` are taken away, what is left does
/// not end with `pat`.
pub proof fn lemma_without_suffixes_done(s: Seq<char>, pat: Seq<char>)
    requires
        pat.len() > 0,
    ensures
        !pat.is_suffix_of(without_suffixes(s, pat)),
    decreases s.len(),
{
    if pat.is_suffix_of(s) {
        lemma_without_suffixes_done(s.take(s.len() - pat.len()), pat);
    }
}

/// Removes every leading occurrence of `pat` from `s`.
pub fn trim_start_matches(s: &str, pat: &str) -> (r: String)
    ensures
        r@ == without_prefixes(s@, pat@),
{
    let text = chars_of(s);
    let pat = chars_of(pat);
    let mut i: usize = 0;
    assert(text@.skip(0) =~= text@);
    if pat.len() > 0 {
        while matches_at(&text, i, &pat)
            invariant
                i <= text.len(),
                pat@.len() > 0,
                without_prefixes(text@, pat@) == without_prefixes(text@.skip(i as int), pat@),
            decreases text.len() - i,
        {
            assert(text@.skip(i as int).skip(pat@.len() as int) =~= text@.skip(i + pat@.len()));
            i += pat.len();
        }
    }
    string_of(&text, i, text.len())
}

/// Removes every trailing occurrence of `pat` from `s`.
pub fn trim_end_matches(s: &str, pat: &str) -> (r: String)
    ensures
        r@ == without_suffixes(s@, pat@),
{
    let text = chars_of(s);
    let pat = chars_of(pat);
    let mut end: usize = text.len();
    assert(text@.take(end as int) =~= text@);
    if pat.len() > 0 {
        while matches_before(&text, end, &pat)
            invariant
                end <= text.len(),
                pat@.len() > 0,
                without_suffixes(text@, pat@) == without_suffixes(text@.take(end as int), pat@),
            decreases end,
        {
            assert(text@.take(end as int).take(end - pat@.len()) =~= text@.take(end - pat@.len()));
            end -= pat.len();
        }
    }
    string_of(&text, 0, end)
}

/// How many whitespace characters `s` begins with.
pub open spec fn leading_whitespace(s: Seq<char>) -> nat
    decreases s.len(),
{
    if s.len() > 0 && unicode_whitespace(s[0]) {
        1 + leading_whitespace(s.skip(1))
    } else {
        0
    }
}

/// How many whitespace characters `s` ends with.
pub open spec fn trailing_whitespace(s: Seq<char>) -> nat
    decreases s.len(),
{
    if s.len() > 0 && unicode_whitespace(s.last()) {
        1 + trailing_whitespace(s.drop_last())
    } else {
        0
    }
}

/// `s` without the whitespace that it begins and ends with.
pub open spec fn trimmed(s: Seq<char>) -> Seq<char> {
    let rest = s.skip(leading_whitespace(s) as int);
    rest.take(rest.len() - trailing_whitespace(rest))
}

/// The leading whitespace of `s` lies within `s` and ends before a
/// character that is not whitespace, or at the end.
pub proof fn lemma_leading_whitespace(s: Seq<char>)
    ensures
        leading_whitespace(s) <= s.len(),
        leading_whitespace(s) < s.len() ==> !unicode_whitespace(s[leading_whitespace(s) as int]),
    decreases s.len(),
{
    if s.len() > 0 && unicode_whitespace(s[0]) {
        lemma_leading_whitespace(s.skip(1));
    }
}

/// The trailing whitespace of `s` lies within `s` and begins after a
/// character that is not whitespace, or at the start.
pub proof fn lemma_trailing_whitespace(s: Seq<char>)
    ensures
        trailing_whitespace(s) <= s.len(),
        trailing_whitespace(s) < s.len() ==> !unicode_whitespace(
            s[s.len() - 1 - trailing_whitespace(s)],
        ),
    decreases s.len(),
{
    if s.len() > 0 && unicode_whitespace(s.last()) {
        lemma_trailing_whitespace(s.drop_last());
    }
}

/// Trimmed text neither begins nor ends with whitespace.
pub proof fn lemma_trimmed_ends(s: Seq<char>)
    ensures
        trimmed(s).len() > 0 ==> !unicode_whitespace(trimmed(s).first()) && !unicode_whitespace(
            trimmed(s).last(),
        ),
{
    let rest = s.skip(leading_whitespace(s) as int);
    lemma_leading_whitespace(s);
    lemma_trailing_whitespace(rest);
}

/// Removes leading and trailing whitespace from `s`.
pub fn trim(s: &str) -> (r: String)
    ensures
        r@ == trimmed(s@),
{
    let text = chars_of(s);
    let mut start: usize = 0;
    assert(text@.skip(0) =~= text@);
    while start < text.len() && text[start].is_whitespace()
        invariant
            start <= text.len(),
            leading_whitespace(text@) == start + leading_whitespace(text@.skip(start as int)),
        decreases text.len() - start,
    {
        assert(text@.skip(start as int).skip(1) =~= text@.skip(start + 1));
        start += 1;
    }
    let ghost rest = text@.skip(start as int);
    let mut end: usize = text.len();
    while end > start && text[end - 1].is_whitespace()
        invariant
            start <= end <= text.len(),
            rest == text@.skip(start as int),
            trailing_whitespace(rest) == (text.len() - end) + trailing_whitespace(
                text@.subrange(start as int, end as int),
            ),
        decreases end,
    {
        assert(text@.subrange(start as int, end as int).drop_last() =~= text@.subrange(
            start as int,
            end - 1,
        ));
        end -= 1;
    }
    string_of(&text, start, end)
}

/// How many characters that are not whitespace `s` begins with.
pub open spec fn word_len(s: Seq<char>) -> nat
    decreases s.len(),
{
    if s.len() > 0 && !unicode_whitespace(s[0]) {
        1 + word_len(s.skip(1))
    } else {
        0
    }
}

/// A word is no longer than the text it begins.
pub proof fn lemma_word_len_bound(s: Seq<char>)
    ensures
        word_len(s) <= s.len(),
    decreases s.len(),
{
    if s.len() > 0 && !unicode_whitespace(s[0]) {
        lemma_word_len_bound(s.skip(1));
    }
}

/// The words of `s`: its maximal runs of characters that are not whitespace,
/// from left to right.
pub open spec fn words(s: Seq<char>) -> Seq<Seq<char>>
    decreases s.len(),
{
    if s.len() == 0 {
        Seq::empty()
    } else if unicode_whitespace(s[0]) {
        words(s.skip(1))
    } else {
        proof {
            lemma_word_len_bound(s);
        }
        seq![s.take(word_len(s) as int)] + words(s.skip(word_len(s) as int))
    }
}

/// The characters that a word is made of are not whitespace.
pub proof fn lemma_word_len_chars(s: Seq<char>)
    ensures
        forall|k: int| 0 <= k < word_len(s) ==> !unicode_whitespace(#[trigger] s[k]),
    decreases s.len(),
{
    if s.len() > 0 && !unicode_whitespace(s[0]) {
        lemma_word_len_chars(s.skip(1));
        lemma_word_len_bound(s);
        assert forall|k: int| 0 <= k < word_len(s) implies !unicode_whitespace(#[trigger] s[k]) by {
            if k > 0 {
                assert(s[k] == s.skip(1)[k - 1]);
            }
        }
    }
}

/// Whether `w` can be a word: it is not empty and holds no whitespace.
pub open spec fn is_word(w: Seq<char>) -> bool {
    w.len() > 0 && forall|k: int| 0 <= k < w.len() ==> !unicode_whitespace(#[trigger] w[k])
}

/// No word is empty, and no word holds whitespace.
pub proof fn lemma_words_are_words(s: Seq<char>)
    ensures
        forall|i: int| 0 <= i < words(s).len() ==> is_word(#[trigger] words(s)[i]),
    decreases s.len(),
{
    if s.len() == 0 {
        assert(words(s).len() == 0);
    } else if unicode_whitespace(s[0]) {
        lemma_words_are_words(s.skip(1));
        assert(words(s) == words(s.skip(1)));
    } else {
        let n = word_len(s) as int;
        lemma_word_len_bound(s);
        lemma_word_len_chars(s);
        lemma_words_are_words(s.skip(n));
        assert(words(s) == seq![s.take(n)] + words(s.skip(n)));
        let first = s.take(n);
        let others = words(s.skip(n));
        assert(is_word(first)) by {
            assert forall|k: int| 0 <= k < first.len() implies !unicode_whitespace(
                #[trigger] first[k],
            ) by {
                assert(first[k] == s[k]);
            }
        }
        assert forall|i: int| 0 <= i < words(s).len() implies is_word(#[trigger] words(s)[i]) by {
            if i == 0 {
                assert(words(s)[0] == first);
            } else {
                assert(words(s)[i] == others[i - 1]);
            }
        }
    }
}

/// The index at which the run of non-whitespace characters from `from` ends.
fn word_end(text: &Vec<char>, from: usize) -> (end: usize)
    requires
        from <= text.len(),
    ensures
        end == from + word_len(text@.skip(from as int)),
        end <= text.len(),
{
    let mut end: usize = from;
    while end < text.len() && !text[end].is_whitespace()
        invariant
            from <= end <= text.len(),
            word_len(text@.skip(from as int)) == (end - from) + word_len(text@.skip(end as int)),
        decreases text.len() - end,
    {
        assert(text@.skip(end as int).skip(1) =~= text@.skip(end + 1));
        end += 1;
    }
    end
}

/// Splits `s` at whitespace into its words.
pub fn split_whitespace(s: &str) -> (r: Vec<String>)
    ensures
        r.deep_view() == words(s@),
{
    let text = chars_of(s);
    let mut out: Vec<String> = Vec::new();
    let mut i: usize = 0;
    assert(text@.skip(0) =~= text@);
    while i < text.len()
        invariant
            i <= text.len(),
            words(text@) == out.deep_view() + words(text@.skip(i as int)),
        decreases text.len() - i,
    {
        let ghost rest = text@.skip(i as int);
        if text[i].is_whitespace() {
            assert(rest.skip(1) =~= text@.skip(i + 1));
            i += 1;
        } else {
            let end = word_end(&text, i);
            out.push(string_of(&text, i, end));
            assert(rest.take(end - i) =~= text@.subrange(i as int, end as int));
            assert(rest.skip(end - i) =~= text@.skip(end as int));
            i = end;
        }
    }
    out
}

/// The first word of `s`, if it has one.
pub fn first_word(s: &str) -> (r: Option<String>)
    ensures
        match r {
            Some(word) => words(s@).len() > 0 && word@ == words(s@)[0],
            None => words(s@).len() == 0,
        },
{
    let text = chars_of(s);
    let mut i: usize = 0;
    assert(text@.skip(0) =~= text@);
    while i < text.len() && text[i].is_whitespace()
        invariant
            i <= text.len(),
            words(text@) == words(text@.skip(i as int)),
        decreases text.len() - i,
    {
        assert(text@.skip(i as int).skip(1) =~= text@.skip(i + 1));
        i += 1;
    }
    if i == text.len() {
        return None;
    }
    let end = word_end(&text, i);
    Some(string_of(&text, i, end))
}

/// The upper-case form of an ASCII letter; any other character unchanged.
pub open spec fn ascii_upper(c: char) -> char {
    if 'a' <= c && c <= 'z' {
        ((c as u8) - 32) as char
    } else {
        c
    }
}

/// Maps `a`..`z` to `A`..`Z` and leaves every other character as it is.
pub fn to_ascii_upper(c: char) -> (r: char)
    ensures
        r == ascii_upper(c),
{
    if 'a' <= c && c <= 'z' {
        let code: u8 = c as u8;
        (code - 32) as char
    } else {
        c
    }
}

} // verus!
