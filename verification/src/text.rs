//! Character-level helpers on strings, with sequence-level specifications.

use vstd::prelude::*;

verus! {

/// Whether two string slices consist of the same characters.
pub(crate) fn str_eq(a: &str, b: &str) -> (same: bool)
    ensures
        same == (a@ == b@),
{
    a.to_owned() == b.to_owned()
}

/// Appends one character. Trusted: `String::push`, which extends the string
/// by exactly the character given.
#[verifier::external_body]
pub(crate) fn push_char(s: &mut String, c: char)
    ensures
        final(s)@ == old(s)@.push(c),
{
    s.push(c)
}

/// The character sequences of a sequence of strings.
pub open spec fn strings_view(strings: Seq<String>) -> Seq<Seq<char>> {
    strings.map_values(|s: String| s@)
}

/// The characters of `s`, in order.
pub fn chars_of(s: &str) -> (chars: Vec<char>)
    ensures
        chars@ == s@,
{
    let mut chars: Vec<char> = Vec::new();
    for c in it: s.chars()
        invariant
            chars@ == it.seq().take(it.index()),
            it.seq() == s@,
    {
        chars.push(c);
    }
    chars
}

/// The string made of `chars[from..to]`.
pub fn string_of_range(chars: &Vec<char>, from: usize, to: usize) -> (s: String)
    requires
        from <= to <= chars.len(),
    ensures
        s@ == chars@.subrange(from as int, to as int),
{
    let mut s = String::new();
    let mut i: usize = from;
    while i < to
        invariant
            from <= i <= to <= chars.len(),
            s@ == chars@.subrange(from as int, i as int),
        decreases to - i,
    {
        push_char(&mut s, chars[i]);
        i += 1;
        assert(chars@.subrange(from as int, i as int) == chars@.subrange(from as int, i - 1).push(
            chars@[i - 1],
        ));
    }
    s
}

/// The string made of all of `chars`.
pub fn string_of(chars: &Vec<char>) -> (s: String)
    ensures
        s@ == chars@,
{
    let s = string_of_range(chars, 0, chars.len());
    assert(chars@.subrange(0, chars@.len() as int) == chars@);
    s
}

/// Position of the last occurrence of `c` in `s`, or -1 when `s` has none.
pub open spec fn last_index_of(s: Seq<char>, c: char) -> int
    decreases s.len(),
{
    if s.len() == 0 {
        -1
    } else if s.last() == c {
        s.len() - 1
    } else {
        last_index_of(s.drop_last(), c)
    }
}

/// Position of the first occurrence of `c` in `s`, or `s.len()` when `s`
/// has none.
pub open spec fn first_index_of(s: Seq<char>, c: char) -> int
    decreases s.len(),
{
    if s.len() == 0 {
        0
    } else if s[0] == c {
        0
    } else {
        1 + first_index_of(s.drop_first(), c)
    }
}

/// What follows the last `c` in `s`; all of `s` when it holds no `c`.
pub open spec fn after_last(s: Seq<char>, c: char) -> Seq<char> {
    s.subrange(last_index_of(s, c) + 1, s.len() as int)
}

/// The last occurrence is an occurrence, nothing after it is one, and there
/// is none exactly when `s` does not hold `c`.
pub proof fn lemma_last_index_of(s: Seq<char>, c: char)
    ensures
        -1 <= last_index_of(s, c) < s.len(),
        last_index_of(s, c) >= 0 ==> s[last_index_of(s, c)] == c,
        forall|i: int| last_index_of(s, c) < i < s.len() ==> s[i] != c,
        last_index_of(s, c) == -1 <==> !s.contains(c),
    decreases s.len(),
{
    if s.len() == 0 {
    } else if s.last() == c {
        assert(s[s.len() - 1] == c);
    } else {
        lemma_last_index_of(s.drop_last(), c);
        let k = last_index_of(s.drop_last(), c);
        if k >= 0 {
            assert(s[k] == s.drop_last()[k]);
        }
        assert forall|i: int| k < i < s.len() implies s[i] != c by {
            if i < s.len() - 1 {
                assert(s.drop_last()[i] == s[i]);
            }
        }
        if s.contains(c) {
            let j = choose|j: int| 0 <= j < s.len() && s[j] == c;
            assert(j < s.len() - 1);
            assert(s.drop_last()[j] == c);
        }
    }
}

/// The first occurrence is an occurrence, nothing before it is one, and
/// there is none exactly when `s` does not hold `c`.
pub proof fn lemma_first_index_of(s: Seq<char>, c: char)
    ensures
        0 <= first_index_of(s, c) <= s.len(),
        first_index_of(s, c) < s.len() ==> s[first_index_of(s, c)] == c,
        forall|i: int| 0 <= i < first_index_of(s, c) ==> s[i] != c,
        first_index_of(s, c) == s.len() <==> !s.contains(c),
    decreases s.len(),
{
    if s.len() == 0 {
    } else if s[0] == c {
    } else {
        lemma_first_index_of(s.drop_first(), c);
        let k = first_index_of(s.drop_first(), c);
        if k < s.len() - 1 {
            assert(s[k + 1] == s.drop_first()[k]);
        }
        assert forall|i: int| 0 <= i < k + 1 implies s[i] != c by {
            if i > 0 {
                assert(s.drop_first()[i - 1] == s[i]);
            }
        }
        if s.contains(c) {
            let j = choose|j: int| 0 <= j < s.len() && s[j] == c;
            assert(j > 0);
            assert(s.drop_first()[j - 1] == c);
        }
    }
}

/// Index of the last `c` among `chars`, if any.
pub fn find_last(chars: &Vec<char>, c: char) -> (found: Option<usize>)
    ensures
        match found {
            Some(i) => i as int == last_index_of(chars@, c) && i < chars.len(),
            None => last_index_of(chars@, c) == -1,
        },
{
    proof {
        lemma_last_index_of(chars@, c);
    }
    let mut i: usize = chars.len();
    assert(chars@.take(i as int) == chars@);
    while i > 0
        invariant
            i <= chars.len(),
            last_index_of(chars@, c) == last_index_of(chars@.take(i as int), c),
        decreases i,
    {
        proof {
            assert(chars@.take(i as int).drop_last() == chars@.take(i - 1));
        }
        if chars[i - 1] == c {
            return Some(i - 1);
        }
        i -= 1;
    }
    assert(chars@.take(0).len() == 0);
    None
}

/// Index of the first `c` among `chars[from..]`, or `chars.len()`.
pub fn find_first_from(chars: &Vec<char>, from: usize, c: char) -> (at: usize)
    requires
        from <= chars.len(),
    ensures
        at as int == from + first_index_of(chars@.skip(from as int), c),
        from <= at <= chars.len(),
{
    let mut i: usize = from;
    while i < chars.len()
        invariant
            from <= i <= chars.len(),
            first_index_of(chars@.skip(from as int), c) == (i - from) + first_index_of(
                chars@.skip(i as int),
                c,
            ),
        decreases chars.len() - i,
    {
        proof {
            assert(chars@.skip(i as int).drop_first() == chars@.skip(i + 1));
        }
        if chars[i] == c {
            return i;
        }
        i += 1;
    }
    i
}

/// `s` without its leading run of `c`.
pub open spec fn trim_leading(s: Seq<char>, c: char) -> Seq<char>
    decreases s.len(),
{
    if s.len() > 0 && s[0] == c {
        trim_leading(s.drop_first(), c)
    } else {
        s
    }
}

/// A sequence that does not start with `c` has nothing to trim.
pub proof fn lemma_trim_leading(s: Seq<char>, c: char)
    ensures
        s.len() == 0 || s[0] != c ==> trim_leading(s, c) == s,
{
}

/// Whether `c` is white space in Unicode's sense. Stands for what
/// `char::is_whitespace` answers.
pub uninterp spec fn is_white_space(c: char) -> bool;

/// Whether an ASCII character is white space: the blank, and the controls
/// from tab to carriage return.
pub open spec fn is_ascii_white_space(c: char) -> bool {
    c == ' ' || ('\t' <= c && c <= '\r')
}

/// Trusted: `char::is_whitespace`, a function of the character alone. Of
/// the ASCII characters it holds the blank and the controls from tab to
/// carriage return to be white space, and no other.
#[verifier::external_body]
pub(crate) fn char_is_whitespace(c: char) -> (yes: bool)
    ensures
        yes == is_white_space(c),
        c <= '\x7f' ==> yes == is_ascii_white_space(c),
{
    c.is_whitespace()
}

/// Whether `c` is a letter or a number in Unicode's sense. Stands for what
/// `char::is_alphanumeric` answers.
pub uninterp spec fn is_alphanumeric(c: char) -> bool;

/// Trusted: `char::is_alphanumeric`, a function of the character alone.
#[verifier::external_body]
pub(crate) fn char_is_alphanumeric(c: char) -> (yes: bool)
    ensures
        yes == is_alphanumeric(c),
{
    c.is_alphanumeric()
}

/// The lower-case form of `s` in Unicode's sense. Stands for what
/// `str::to_lowercase` returns.
pub uninterp spec fn lowercase(s: Seq<char>) -> Seq<char>;

/// Trusted: `str::to_lowercase`, a function of the characters alone.
#[verifier::external_body]
pub(crate) fn to_lowercase(s: &str) -> (lower: String)
    ensures
        lower@ == lowercase(s@),
{
    s.to_lowercase()
}

/// The upper-case form of `c` in Unicode's sense, which may be more than one
/// character. Stands for what `char::to_uppercase` yields.
pub uninterp spec fn uppercase_of(c: char) -> Seq<char>;

/// Trusted: `char::to_uppercase`, a function of the character alone; the
/// characters that it yields are collected in order.
#[verifier::external_body]
pub(crate) fn char_to_uppercase(c: char) -> (upper: String)
    ensures
        upper@ == uppercase_of(c),
{
    c.to_uppercase().collect()
}

/// Pushing a string pushes its characters onto the view.
pub proof fn lemma_strings_view_push(strings: Seq<String>, s: String)
    ensures
        strings_view(strings.push(s)) == strings_view(strings).push(s@),
{
    assert(strings_view(strings.push(s)) =~= strings_view(strings).push(s@));
}

/// The pieces of `s` between occurrences of `sep`. There is always at least
/// one piece, and pieces may be empty.
pub open spec fn split_on(s: Seq<char>, sep: char) -> Seq<Seq<char>>
    decreases s.len(),
{
    if s.len() == 0 {
        seq![Seq::<char>::empty()]
    } else {
        let before = split_on(s.drop_last(), sep);
        if s.last() == sep {
            before.push(Seq::<char>::empty())
        } else {
            before.drop_last().push(before.last().push(s.last()))
        }
    }
}

/// Splits `s` at every `sep`.
pub fn split_str(s: &str, sep: char) -> (parts: Vec<String>)
    ensures
        strings_view(parts@) == split_on(s@, sep),
        parts.len() >= 1,
{
    let chars = chars_of(s);
    let mut parts: Vec<String> = Vec::new();
    let mut current = String::new();
    let mut i: usize = 0;
    assert(strings_view(parts@).push(current@) =~= split_on(chars@.take(0), sep));
    while i < chars.len()
        invariant
            i <= chars.len(),
            strings_view(parts@).push(current@) == split_on(chars@.take(i as int), sep),
        decreases chars.len() - i,
    {
        proof {
            assert(chars@.take(i + 1).drop_last() == chars@.take(i as int));
            assert(chars@.take(i + 1).last() == chars@[i as int]);
            let before = split_on(chars@.take(i as int), sep);
            assert(before.drop_last() =~= strings_view(parts@));
            assert(before.last() == current@);
        }
        if chars[i] == sep {
            proof {
                lemma_strings_view_push(parts@, current);
            }
            parts.push(current);
            current = String::new();
        } else {
            push_char(&mut current, chars[i]);
        }
        i += 1;
    }
    proof {
        assert(chars@.take(i as int) == chars@);
        lemma_strings_view_push(parts@, current);
    }
    parts.push(current);
    parts
}

/// `s` cut at its first `sep`: what stands before it and what follows it.
pub open spec fn split_once_on(s: Seq<char>, sep: char) -> Option<(Seq<char>, Seq<char>)> {
    if s.contains(sep) {
        Some(
            (
                s.subrange(0, first_index_of(s, sep)),
                s.subrange(first_index_of(s, sep) + 1, s.len() as int),
            ),
        )
    } else {
        None
    }
}

/// Cuts `s` at its first `sep`, if it holds one.
pub fn split_once(s: &str, sep: char) -> (halves: Option<(String, String)>)
    ensures
        match halves {
            Some((left, right)) => split_once_on(s@, sep) == Some((left@, right@)),
            None => split_once_on(s@, sep) is None,
        },
{
    let chars = chars_of(s);
    proof {
        lemma_first_index_of(chars@, sep);
        assert(chars@.skip(0) == chars@);
    }
    let at = find_first_from(&chars, 0, sep);
    if at == chars.len() {
        None
    } else {
        Some((string_of_range(&chars, 0, at), string_of_range(&chars, at + 1, chars.len())))
    }
}

/// `s` without its trailing run of `c`.
pub open spec fn trim_trailing(s: Seq<char>, c: char) -> Seq<char>
    decreases s.len(),
{
    if s.len() > 0 && s.last() == c {
        trim_trailing(s.drop_last(), c)
    } else {
        s
    }
}

/// `s` without its leading white space.
pub open spec fn trim_start_ws(s: Seq<char>) -> Seq<char>
    decreases s.len(),
{
    if s.len() > 0 && is_white_space(s[0]) {
        trim_start_ws(s.drop_first())
    } else {
        s
    }
}

/// `s` without its trailing white space.
pub open spec fn trim_end_ws(s: Seq<char>) -> Seq<char>
    decreases s.len(),
{
    if s.len() > 0 && is_white_space(s.last()) {
        trim_end_ws(s.drop_last())
    } else {
        s
    }
}

/// `s` without leading and trailing white space.
pub open spec fn trim_ws(s: Seq<char>) -> Seq<char> {
    trim_end_ws(trim_start_ws(s))
}

/// The characters `chars[from..to]` without leading and trailing white
/// space, as positions.
fn trim_ws_bounds(chars: &Vec<char>) -> (bounds: (usize, usize))
    ensures
        bounds.0 <= bounds.1 <= chars.len(),
        chars@.subrange(bounds.0 as int, bounds.1 as int) == trim_ws(chars@),
{
    let mut start: usize = 0;
    assert(chars@.skip(0) == chars@);
    while start < chars.len() && char_is_whitespace(chars[start])
        invariant
            start <= chars.len(),
            trim_start_ws(chars@) == trim_start_ws(chars@.skip(start as int)),
        decreases chars.len() - start,
    {
        assert(chars@.skip(start as int).drop_first() == chars@.skip(start + 1));
        start += 1;
    }
    assert(trim_start_ws(chars@) == chars@.skip(start as int));
    let mut end: usize = chars.len();
    assert(chars@.skip(start as int) == chars@.subrange(start as int, end as int));
    while end > start && char_is_whitespace(chars[end - 1])
        invariant
            start <= end <= chars.len(),
            trim_ws(chars@) == trim_end_ws(chars@.subrange(start as int, end as int)),
        decreases end,
    {
        assert(chars@.subrange(start as int, end as int).drop_last() == chars@.subrange(
            start as int,
            end - 1,
        ));
        end -= 1;
    }
    (start, end)
}

/// `s` without leading and trailing white space.
pub fn trim(s: &str) -> (trimmed: String)
    ensures
        trimmed@ == trim_ws(s@),
{
    let chars = chars_of(s);
    let (start, end) = trim_ws_bounds(&chars);
    string_of_range(&chars, start, end)
}

/// Every piece without its surrounding white space.
pub open spec fn each_trimmed(pieces: Seq<Seq<char>>) -> Seq<Seq<char>> {
    pieces.map_values(|p: Seq<char>| trim_ws(p))
}

/// Splits `s` at every `sep` and trims each piece.
pub fn split_trimmed(s: &str, sep: char) -> (parts: Vec<String>)
    ensures
        strings_view(parts@) == each_trimmed(split_on(s@, sep)),
{
    let pieces = split_str(s, sep);
    let mut parts: Vec<String> = Vec::new();
    let mut i: usize = 0;
    while i < pieces.len()
        invariant
            i <= pieces.len(),
            strings_view(parts@) == each_trimmed(strings_view(pieces@).take(i as int)),
        decreases pieces.len() - i,
    {
        let piece = trim(pieces[i].as_str());
        proof {
            lemma_strings_view_push(parts@, piece);
            assert(strings_view(pieces@).take(i + 1) == strings_view(pieces@).take(i as int).push(
                pieces[i as int]@,
            ));
            assert(each_trimmed(strings_view(pieces@).take(i + 1)) =~= each_trimmed(
                strings_view(pieces@).take(i as int),
            ).push(trim_ws(pieces[i as int]@)));
        }
        parts.push(piece);
        i += 1;
    }
    assert(strings_view(pieces@).take(i as int) == strings_view(pieces@));
    parts
}

/// `s` with every `from` replaced by the characters of `to`.
pub open spec fn replace_each(s: Seq<char>, from: char, to: Seq<char>) -> Seq<char>
    decreases s.len(),
{
    if s.len() == 0 {
        Seq::<char>::empty()
    } else if s.last() == from {
        replace_each(s.drop_last(), from, to) + to
    } else {
        replace_each(s.drop_last(), from, to).push(s.last())
    }
}

/// Replaces every `from` in `s` by `to`.
pub fn replace_char(s: &str, from: char, to: &str) -> (replaced: String)
    ensures
        replaced@ == replace_each(s@, from, to@),
{
    let chars = chars_of(s);
    let mut replaced = String::new();
    let mut i: usize = 0;
    assert(chars@.take(0) =~= Seq::<char>::empty());
    while i < chars.len()
        invariant
            i <= chars.len(),
            replaced@ == replace_each(chars@.take(i as int), from, to@),
        decreases chars.len() - i,
    {
        proof {
            assert(chars@.take(i + 1).drop_last() == chars@.take(i as int));
        }
        if chars[i] == from {
            replaced.append(to);
        } else {
            push_char(&mut replaced, chars[i]);
        }
        i += 1;
    }
    assert(chars@.take(i as int) == chars@);
    replaced
}

/// The pieces joined, with `sep` between neighbours.
pub open spec fn join_with(pieces: Seq<Seq<char>>, sep: Seq<char>) -> Seq<char>
    decreases pieces.len(),
{
    if pieces.len() == 0 {
        Seq::<char>::empty()
    } else if pieces.len() == 1 {
        pieces[0]
    } else {
        join_with(pieces.drop_last(), sep) + sep + pieces.last()
    }
}

/// Joins `pieces` with `sep` between neighbours.
pub fn join(pieces: &Vec<String>, sep: &str) -> (joined: String)
    ensures
        joined@ == join_with(strings_view(pieces@), sep@),
{
    let mut joined = String::new();
    let mut i: usize = 0;
    assert(strings_view(pieces@).take(0) =~= Seq::<Seq<char>>::empty());
    while i < pieces.len()
        invariant
            i <= pieces.len(),
            joined@ == join_with(strings_view(pieces@).take(i as int), sep@),
        decreases pieces.len() - i,
    {
        proof {
            let upto = strings_view(pieces@).take(i + 1);
            assert(upto.drop_last() == strings_view(pieces@).take(i as int));
            assert(upto.last() == pieces[i as int]@);
            if i == 0 {
                assert(upto[0] == pieces[i as int]@);
                assert(Seq::<char>::empty() + pieces[i as int]@ =~= pieces[i as int]@);
            }
        }
        if i > 0 {
            joined.append(sep);
        }
        joined.append(pieces[i].as_str());
        i += 1;
    }
    assert(strings_view(pieces@).take(i as int) == strings_view(pieces@));
    joined
}

/// The pieces that are not empty, in order.
pub open spec fn nonempty_of(pieces: Seq<Seq<char>>) -> Seq<Seq<char>>
    decreases pieces.len(),
{
    if pieces.len() == 0 {
        Seq::<Seq<char>>::empty()
    } else if pieces.last().len() == 0 {
        nonempty_of(pieces.drop_last())
    } else {
        nonempty_of(pieces.drop_last()).push(pieces.last())
    }
}

/// Drops the empty strings of `pieces`.
pub fn keep_nonempty(pieces: Vec<String>) -> (kept: Vec<String>)
    ensures
        strings_view(kept@) == nonempty_of(strings_view(pieces@)),
{
    let mut kept: Vec<String> = Vec::new();
    let mut i: usize = 0;
    assert(strings_view(pieces@).take(0) =~= Seq::<Seq<char>>::empty());
    assert(strings_view(kept@) =~= Seq::<Seq<char>>::empty());
    while i < pieces.len()
        invariant
            i <= pieces.len(),
            strings_view(kept@) == nonempty_of(strings_view(pieces@).take(i as int)),
        decreases pieces.len() - i,
    {
        proof {
            let upto = strings_view(pieces@).take(i + 1);
            assert(upto.drop_last() == strings_view(pieces@).take(i as int));
            assert(upto.last() == pieces[i as int]@);
        }
        if !pieces[i].as_str().is_empty() {
            let piece = pieces[i].clone();
            proof {
                lemma_strings_view_push(kept@, piece);
            }
            kept.push(piece);
        }
        i += 1;
    }
    assert(strings_view(pieces@).take(i as int) == strings_view(pieces@));
    kept
}

/// The words of `s`: its maximal runs of characters that are not white
/// space, with the run that is still open kept apart.
pub open spec fn words_scan(s: Seq<char>) -> (Seq<Seq<char>>, Seq<char>)
    decreases s.len(),
{
    if s.len() == 0 {
        (Seq::<Seq<char>>::empty(), Seq::<char>::empty())
    } else {
        let (done, open) = words_scan(s.drop_last());
        if !is_white_space(s.last()) {
            (done, open.push(s.last()))
        } else if open.len() > 0 {
            (done.push(open), Seq::<char>::empty())
        } else {
            (done, open)
        }
    }
}

/// The words of `s`: its maximal runs of characters that are not white space.
pub open spec fn words_of(s: Seq<char>) -> Seq<Seq<char>> {
    let (done, open) = words_scan(s);
    if open.len() > 0 {
        done.push(open)
    } else {
        done
    }
}

/// Splits `s` into its words.
pub fn split_words(s: &str) -> (words: Vec<String>)
    ensures
        strings_view(words@) == words_of(s@),
{
    let chars = chars_of(s);
    let mut words: Vec<String> = Vec::new();
    let mut current = String::new();
    let mut i: usize = 0;
    assert(chars@.take(0) =~= Seq::<char>::empty());
    assert(strings_view(words@) =~= Seq::<Seq<char>>::empty());
    while i < chars.len()
        invariant
            i <= chars.len(),
            (strings_view(words@), current@) == words_scan(chars@.take(i as int)),
        decreases chars.len() - i,
    {
        proof {
            assert(chars@.take(i + 1).drop_last() == chars@.take(i as int));
        }
        if !char_is_whitespace(chars[i]) {
            push_char(&mut current, chars[i]);
        } else if !current.as_str().is_empty() {
            proof {
                lemma_strings_view_push(words@, current);
            }
            words.push(current);
            current = String::new();
        }
        i += 1;
    }
    assert(chars@.take(i as int) == chars@);
    if !current.as_str().is_empty() {
        proof {
            lemma_strings_view_push(words@, current);
        }
        words.push(current);
    }
    words
}

/// Trims a leading and a trailing run of `c` off `s`.
pub fn trim_char(s: &str, c: char) -> (trimmed: String)
    ensures
        trimmed@ == trim_trailing(trim_leading(s@, c), c),
{
    let chars = chars_of(s);
    let mut start: usize = 0;
    assert(chars@.skip(0) == chars@);
    while start < chars.len() && chars[start] == c
        invariant
            start <= chars.len(),
            trim_leading(chars@, c) == trim_leading(chars@.skip(start as int), c),
        decreases chars.len() - start,
    {
        assert(chars@.skip(start as int).drop_first() == chars@.skip(start + 1));
        start += 1;
    }
    assert(trim_leading(chars@, c) == chars@.skip(start as int));
    let mut end: usize = chars.len();
    assert(chars@.skip(start as int) == chars@.subrange(start as int, end as int));
    while end > start && chars[end - 1] == c
        invariant
            start <= end <= chars.len(),
            trim_trailing(trim_leading(chars@, c), c) == trim_trailing(
                chars@.subrange(start as int, end as int),
                c,
            ),
        decreases end,
    {
        assert(chars@.subrange(start as int, end as int).drop_last() == chars@.subrange(
            start as int,
            end - 1,
        ));
        end -= 1;
    }
    string_of_range(&chars, start, end)
}

/// Whether `list` holds a string with the characters of `s`.
pub fn contains_string(list: &Vec<String>, s: &str) -> (found: bool)
    ensures
        found == strings_view(list@).contains(s@),
{
    let mut i: usize = 0;
    while i < list.len()
        invariant
            i <= list.len(),
            forall|j: int| 0 <= j < i ==> strings_view(list@)[j] != s@,
        decreases list.len() - i,
    {
        assert(strings_view(list@)[i as int] == list[i as int]@);
        if str_eq(list[i].as_str(), s) {
            return true;
        }
        i += 1;
    }
    false
}

/// The character of a decimal digit.
pub open spec fn digit_char(digit: nat) -> char {
    (('0' as u8) + digit) as char
}

/// The decimal numeral of `n`, without leading zeros.
pub open spec fn decimal_of(n: nat) -> Seq<char>
    decreases n,
{
    if n < 10 {
        seq![digit_char(n)]
    } else {
        decimal_of(n / 10).push(digit_char(n % 10))
    }
}

/// Writes `n` as a decimal numeral.
pub fn decimal(n: u64) -> (numeral: String)
    ensures
        numeral@ == decimal_of(n as nat),
    decreases n,
{
    let digit = ((48u8 + (n % 10) as u8) as char);
    assert(digit == digit_char((n % 10) as nat));
    if n < 10 {
        let mut numeral = String::new();
        push_char(&mut numeral, digit);
        assert(numeral@ =~= seq![digit_char(n as nat)]);
        numeral
    } else {
        let mut numeral = decimal(n / 10);
        push_char(&mut numeral, digit);
        numeral
    }
}

} // verus!
