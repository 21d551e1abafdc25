//! Character-level text operations with their mathematical models.
//!
//! Strings are modelled as `Seq<char>`; each executable function here is
//! proved against a spec function that states the result directly.
use vstd::prelude::*;

verus! {

/// Calls `String::push`: appends one character to the end of the string.
#[verifier::external_body]
fn push_char(s: &mut String, c: char)
    ensures
        final(s)@ == old(s)@.push(c),
{
    s.push(c);
}

/// Unicode `White_Space` property, the set that `char::is_whitespace` tests.
pub open spec fn is_ws(c: char) -> bool {
    ||| c == '\t' || c == '\n' || c == '\u{0B}' || c == '\u{0C}' || c == '\r' || c == ' '
    ||| c == '\u{85}' || c == '\u{A0}' || c == '\u{1680}'
    ||| ('\u{2000}' <= c && c <= '\u{200A}')
    ||| c == '\u{2028}' || c == '\u{2029}' || c == '\u{202F}' || c == '\u{205F}'
    ||| c == '\u{3000}'
}

/// Executable test for `is_ws`.
pub fn is_whitespace(c: char) -> (r: bool)
    ensures
        r == is_ws(c),
{
    c == '\t' || c == '\n' || c == '\u{0B}' || c == '\u{0C}' || c == '\r' || c == ' '
        || c == '\u{85}' || c == '\u{A0}' || c == '\u{1680}' || ('\u{2000}' <= c && c
        <= '\u{200A}') || c == '\u{2028}' || c == '\u{2029}' || c == '\u{202F}' || c
        == '\u{205F}' || c == '\u{3000}'
}

/// The characters of a string slice, in order.
pub fn chars_of(s: &str) -> (v: Vec<char>)
    ensures
        v@ == s@,
{
    let mut v: Vec<char> = Vec::new();
    for c in it: s.chars()
        invariant
            it.seq() == s@,
            v@ == it.seq().take(it.index() as int),
    {
        v.push(c);
    }
    v
}

/// The string made of the given characters, in order.
pub fn string_of(v: &Vec<char>) -> (s: String)
    ensures
        s@ == v@,
{
    let mut s = String::new();
    let mut i: usize = 0;
    while i < v.len()
        invariant
            i <= v.len(),
            s@ == v@.take(i as int),
        decreases v.len() - i,
    {
        push_char(&mut s, v[i]);
        i += 1;
        assert(s@ =~= v@.take(i as int));
    }
    assert(v@.take(v.len() as int) =~= v@);
    s
}

/// The characters of an owned string, in order.
pub fn chars_of_string(s: &String) -> (v: Vec<char>)
    ensures
        v@ == s@,
{
    chars_of(s.as_str())
}

/// Exact equality of two character vectors.
pub fn vec_eq(a: &Vec<char>, b: &Vec<char>) -> (r: bool)
    ensures
        r == (a@ == b@),
{
    if a.len() != b.len() {
        return false;
    }
    let mut i: usize = 0;
    while i < a.len()
        invariant
            i <= a.len(),
            a.len() == b.len(),
            forall|j: int| 0 <= j < i ==> a@[j] == b@[j],
        decreases a.len() - i,
    {
        if a[i] != b[i] {
            return false;
        }
        i += 1;
    }
    assert(a@ =~= b@);
    true
}

/// `p` is a prefix of `s`.
pub open spec fn has_prefix(s: Seq<char>, p: Seq<char>) -> bool {
    p.len() <= s.len() && s.take(p.len() as int) == p
}

/// Executable prefix test.
pub fn starts_with(s: &Vec<char>, p: &Vec<char>) -> (r: bool)
    ensures
        r == has_prefix(s@, p@),
{
    if p.len() > s.len() {
        return false;
    }
    let mut i: usize = 0;
    while i < p.len()
        invariant
            i <= p.len(),
            p.len() <= s.len(),
            forall|j: int| 0 <= j < i ==> s@[j] == p@[j],
        decreases p.len() - i,
    {
        if s[i] != p[i] {
            assert(s@.take(p.len() as int)[i as int] != p@[i as int]);
            return false;
        }
        i += 1;
    }
    assert(s@.take(p.len() as int) =~= p@);
    true
}

/// Concatenation of two character vectors.
pub fn concat(a: &Vec<char>, b: &Vec<char>) -> (r: Vec<char>)
    ensures
        r@ == a@ + b@,
{
    let mut r = a.clone();
    assert(r@ == a@);
    let mut i: usize = 0;
    while i < b.len()
        invariant
            i <= b.len(),
            r@ == a@ + b@.take(i as int),
        decreases b.len() - i,
    {
        r.push(b[i]);
        i += 1;
        assert(r@ =~= a@ + b@.take(i as int));
    }
    assert(b@.take(b.len() as int) =~= b@);
    r
}

/// The copy of `s[from..to]`.
pub(crate) fn slice_of(s: &Vec<char>, from: usize, to: usize) -> (r: Vec<char>)
    requires
        from <= to <= s.len(),
    ensures
        r@ == s@.subrange(from as int, to as int),
{
    let mut r: Vec<char> = Vec::new();
    let mut i: usize = from;
    while i < to
        invariant
            from <= i <= to,
            to <= s.len(),
            r@ == s@.subrange(from as int, i as int),
        decreases to - i,
    {
        r.push(s[i]);
        i += 1;
        assert(r@ =~= s@.subrange(from as int, i as int));
    }
    r
}

/// Index of the first occurrence of `c` in `s`, if any.
pub open spec fn first_index_of(s: Seq<char>, c: char) -> Option<int>
    decreases s.len(),
{
    if s.len() == 0 {
        None
    } else if s[0] == c {
        Some(0)
    } else {
        match first_index_of(s.skip(1), c) {
            Some(i) => Some(i + 1),
            None => None,
        }
    }
}

/// Characterisation of `first_index_of` by its defining properties.
pub proof fn lemma_first_index_of(s: Seq<char>, c: char)
    ensures
        first_index_of(s, c) matches Some(i) ==> 0 <= i < s.len() && s[i] == c && forall|
            j: int,
        |
            0 <= j < i ==> s[j] != c,
        first_index_of(s, c) is None ==> forall|j: int| 0 <= j < s.len() ==> s[j] != c,
    decreases s.len(),
{
    if s.len() > 0 && s[0] != c {
        lemma_first_index_of(s.skip(1), c);
        assert forall|j: int| 1 <= j < s.len() implies s[j] == s.skip(1)[j - 1] by {}
    }
}

/// Executable search for the first occurrence of a character.
pub fn find_char(s: &Vec<char>, c: char) -> (r: Option<usize>)
    ensures
        r matches Some(i) ==> first_index_of(s@, c) == Some(i as int),
        r is None ==> first_index_of(s@, c) is None,
{
    proof {
        lemma_first_index_of(s@, c);
    }
    let mut i: usize = 0;
    while i < s.len()
        invariant
            i <= s.len(),
            forall|j: int| 0 <= j < i ==> s@[j] != c,
            first_index_of(s@, c) matches Some(k) ==> 0 <= k < s.len() && s@[k] == c && forall|
                j: int,
            |
                0 <= j < k ==> s@[j] != c,
            first_index_of(s@, c) is None ==> forall|j: int| 0 <= j < s.len() ==> s@[j] != c,
        decreases s.len() - i,
    {
        if s[i] == c {
            return Some(i);
        }
        i += 1;
    }
    None
}

/// Number of leading whitespace characters.
pub open spec fn leading_ws(s: Seq<char>) -> nat
    decreases s.len(),
{
    if s.len() > 0 && is_ws(s[0]) {
        1 + leading_ws(s.skip(1))
    } else {
        0
    }
}

/// Number of trailing whitespace characters.
pub open spec fn trailing_ws(s: Seq<char>) -> nat
    decreases s.len(),
{
    if s.len() > 0 && is_ws(s.last()) {
        1 + trailing_ws(s.drop_last())
    } else {
        0
    }
}

/// `str::trim`: the string without leading and trailing whitespace.
pub open spec fn trim_seq(s: Seq<char>) -> Seq<char> {
    let a = s.skip(leading_ws(s) as int);
    a.take(a.len() - trailing_ws(a))
}

proof fn lemma_leading_ws_bound(s: Seq<char>)
    ensures
        leading_ws(s) <= s.len(),
        leading_ws(s) < s.len() ==> !is_ws(s[leading_ws(s) as int]),
        forall|j: int| 0 <= j < leading_ws(s) ==> is_ws(s[j]),
    decreases s.len(),
{
    if s.len() > 0 && is_ws(s[0]) {
        lemma_leading_ws_bound(s.skip(1));
        assert forall|j: int| 1 <= j < s.len() implies s[j] == s.skip(1)[j - 1] by {}
    }
}

proof fn lemma_trailing_ws_bound(s: Seq<char>)
    ensures
        trailing_ws(s) <= s.len(),
        trailing_ws(s) < s.len() ==> !is_ws(s[s.len() - trailing_ws(s) - 1]),
        forall|j: int| s.len() - trailing_ws(s) <= j < s.len() ==> is_ws(s[j]),
    decreases s.len(),
{
    if s.len() > 0 && is_ws(s.last()) {
        lemma_trailing_ws_bound(s.drop_last());
        assert forall|j: int| 0 <= j < s.len() - 1 implies s[j] == s.drop_last()[j] by {}
    }
}

/// `trim_seq(s)` is `s` without its whitespace at both ends: a piece of `s`
/// that neither begins nor ends with whitespace, with only whitespace before
/// and after it in `s`.
pub proof fn law_trim_removes_only_outer_whitespace(s: Seq<char>)
    ensures
        trim_seq(s).len() > 0 ==> !is_ws(trim_seq(s)[0]) && !is_ws(trim_seq(s).last()),
        leading_ws(s) + trim_seq(s).len() <= s.len(),
        s.subrange(leading_ws(s) as int, (leading_ws(s) + trim_seq(s).len()) as int) == trim_seq(s),
        forall|j: int| 0 <= j < leading_ws(s) ==> is_ws(#[trigger] s[j]),
        forall|j: int| leading_ws(s) + trim_seq(s).len() <= j < s.len() ==> is_ws(#[trigger] s[j]),
{
    lemma_leading_ws_bound(s);
    let l = leading_ws(s) as int;
    let a = s.skip(l);
    lemma_trailing_ws_bound(a);
    let t = trim_seq(s);
    let e = a.len() - trailing_ws(a);
    assert(t == a.take(e));
    assert(s.subrange(l, l + t.len()) =~= t);
    assert forall|j: int| l + t.len() <= j < s.len() implies is_ws(#[trigger] s[j]) by {
        assert(s[j] == a[j - l]);
    }
    if t.len() > 0 {
        assert(t[0] == s[l]);
        assert(t.last() == a[e - 1]);
    }
    assert(s.subrange(l, l + t.len()) == t);
}

/// Executable `str::trim` on characters.
pub fn trim(s: &Vec<char>) -> (r: Vec<char>)
    ensures
        r@ == trim_seq(s@),
{
    let mut i: usize = 0;
    assert(s@.skip(0) =~= s@);
    while i < s.len() && is_whitespace(s[i])
        invariant
            i <= s.len(),
            leading_ws(s@) == i + leading_ws(s@.skip(i as int)),
        decreases s.len() - i,
    {
        assert(s@.skip(i as int).skip(1) =~= s@.skip(i + 1));
        i += 1;
    }
    let ghost a = s@.skip(i as int);
    assert(s@.subrange(i as int, s.len() as int) =~= a);
    let mut j: usize = s.len();
    while j > i && is_whitespace(s[j - 1])
        invariant
            i <= j <= s.len(),
            a == s@.skip(i as int),
            trailing_ws(a) == (s.len() - j) + trailing_ws(s@.subrange(i as int, j as int)),
        decreases j,
    {
        assert(s@.subrange(i as int, j as int).drop_last() =~= s@.subrange(i as int, j - 1));
        j -= 1;
    }
    proof {
        assert(s@.subrange(i as int, s.len() as int) =~= a);
        lemma_trailing_ws_bound(a);
        assert(a.take(a.len() - trailing_ws(a)) =~= s@.subrange(i as int, j as int));
    }
    slice_of(s, i, j)
}

/// Length of the leading run of characters that are not whitespace.
pub open spec fn word_len(s: Seq<char>) -> nat
    decreases s.len(),
{
    if s.len() > 0 && !is_ws(s[0]) {
        1 + word_len(s.skip(1))
    } else {
        0
    }
}

proof fn lemma_word_len(s: Seq<char>)
    ensures
        word_len(s) <= s.len(),
        word_len(s) < s.len() ==> is_ws(s[word_len(s) as int]),
        forall|j: int| 0 <= j < word_len(s) ==> !is_ws(s[j]),
    decreases s.len(),
{
    if s.len() > 0 && !is_ws(s[0]) {
        lemma_word_len(s.skip(1));
        assert forall|j: int| 1 <= j < s.len() implies s[j] == s.skip(1)[j - 1] by {}
    }
}

/// `str::split_whitespace`: the maximal runs of non-whitespace characters.
pub open spec fn words(s: Seq<char>) -> Seq<Seq<char>>
    decreases s.len(),
{
    if s.len() == 0 {
        seq![]
    } else if is_ws(s[0]) {
        words(s.skip(1))
    } else {
        let n = word_len(s);
        if 0 < n <= s.len() {
            seq![s.take(n as int)] + words(s.skip(n as int))
        } else {
            seq![]
        }
    }
}

/// The run of non-whitespace at the start of `a + b`: that of `a` when `a`
/// holds whitespace, else all of `a` followed by that of `b`.
proof fn lemma_word_len_concat(a: Seq<char>, b: Seq<char>)
    ensures
        word_len(a) < a.len() ==> word_len(a + b) == word_len(a),
        word_len(a) == a.len() ==> word_len(a + b) == a.len() + word_len(b),
    decreases a.len(),
{
    lemma_word_len(a);
    if a.len() == 0 {
        assert(a + b =~= b);
    } else if !is_ws(a[0]) {
        lemma_word_len_concat(a.skip(1), b);
        assert((a + b).skip(1) =~= a.skip(1) + b);
        assert((a + b)[0] == a[0]);
    } else {
        assert((a + b)[0] == a[0]);
    }
}

/// Splitting at whitespace: a whitespace character separates the words
/// before it from the words after it, and text without whitespace is one
/// word, itself. Every word is non-empty and holds no whitespace.
pub proof fn law_words_split_at_whitespace(a: Seq<char>, c: char, b: Seq<char>)
    ensures
        is_ws(c) ==> words(a + seq![c] + b) == words(a) + words(b),
        a.len() > 0 && (forall|j: int| 0 <= j < a.len() ==> !is_ws(#[trigger] a[j])) ==> words(a)
            == seq![a],
        forall|k: int|
            0 <= k < words(a).len() ==> (#[trigger] words(a)[k]).len() > 0 && forall|j: int|
                0 <= j < words(a)[k].len() ==> !is_ws(#[trigger] words(a)[k][j]),
    decreases a.len(),
{
    lemma_word_len(a);
    let s = a + seq![c] + b;
    if a.len() == 0 {
        assert(s.skip(1) =~= b);
        assert(s[0] == c);
        assert(words(a) =~= Seq::<Seq<char>>::empty());
    } else if is_ws(a[0]) {
        law_words_split_at_whitespace(a.skip(1), c, b);
        assert(s.skip(1) =~= a.skip(1) + seq![c] + b);
        assert(s[0] == a[0]);
        assert(words(a) == words(a.skip(1)));
    } else {
        let m = word_len(a) as int;
        assert(m > 0);
        assert(words(a) == seq![a.take(m)] + words(a.skip(m)));
        law_words_split_at_whitespace(a.skip(m), c, b);
        assert forall|k: int| 0 <= k < words(a).len() implies (#[trigger] words(a)[k]).len() > 0
            && forall|j: int| 0 <= j < words(a)[k].len() ==> !is_ws(#[trigger] words(a)[k][j]) by {
            if k > 0 {
                assert(words(a)[k] == words(a.skip(m))[k - 1]);
            } else {
                assert(words(a)[0] == a.take(m));
            }
        }
        if forall|j: int| 0 <= j < a.len() ==> !is_ws(#[trigger] a[j]) {
            assert(m == a.len());
            assert(a.skip(m) =~= Seq::<char>::empty());
            assert(a.take(m) =~= a);
            assert(words(a.skip(m)) =~= Seq::<Seq<char>>::empty());
        }
        if is_ws(c) {
            lemma_word_len_concat(a, seq![c] + b);
            assert(s == a + (seq![c] + b));
            assert(s[0] == a[0]);
            if m < a.len() {
                assert(word_len(s) == m);
                assert(s.take(m) =~= a.take(m));
                assert(s.skip(m) =~= a.skip(m) + seq![c] + b);
            } else {
                assert((seq![c] + b)[0] == c);
                assert(word_len(seq![c] + b) == 0);
                assert(word_len(s) == m);
                assert(s.take(m) =~= a.take(m));
                assert(s.skip(m) =~= a.skip(m) + seq![c] + b);
            }
        }
    }
}

/// Executable `str::split_whitespace` on characters.
pub fn split_whitespace(s: &Vec<char>) -> (r: Vec<Vec<char>>)
    ensures
        r@.len() == words(s@).len(),
        forall|k: int| 0 <= k < r@.len() ==> #[trigger] r@[k]@ == words(s@)[k],
{
    let mut r: Vec<Vec<char>> = Vec::new();
    let ghost mut acc: Seq<Seq<char>> = seq![];
    let mut i: usize = 0;
    assert(s@.skip(0) =~= s@);
    while i < s.len()
        invariant
            i <= s.len(),
            words(s@) == acc + words(s@.skip(i as int)),
            r@.len() == acc.len(),
            forall|k: int| 0 <= k < r@.len() ==> #[trigger] r@[k]@ == acc[k],
        decreases s.len() - i,
    {
        let ghost rest = s@.skip(i as int);
        if is_whitespace(s[i]) {
            assert(rest.skip(1) =~= s@.skip(i + 1));
            i += 1;
        } else {
            let mut j: usize = i;
            while j < s.len() && !is_whitespace(s[j])
                invariant
                    i <= j <= s.len(),
                    rest == s@.skip(i as int),
                    word_len(rest) == (j - i) + word_len(s@.skip(j as int)),
                decreases s.len() - j,
            {
                assert(s@.skip(j as int).skip(1) =~= s@.skip(j + 1));
                j += 1;
            }
            let w = slice_of(s, i, j);
            proof {
                lemma_word_len(rest);
                assert(rest.take((j - i) as int) =~= s@.subrange(i as int, j as int));
                assert(rest.skip((j - i) as int) =~= s@.skip(j as int));
                acc = acc + seq![w@];
            }
            r.push(w);
            i = j;
            assert(words(s@) =~= acc + words(s@.skip(i as int)));
        }
    }
    proof {
        assert(s@.skip(i as int) =~= Seq::<char>::empty());
        assert(words(s@) =~= acc);
    }
    r
}

/// `[&str]::join(" ")`.
pub open spec fn join_space(parts: Seq<Seq<char>>) -> Seq<char>
    decreases parts.len(),
{
    if parts.len() == 0 {
        seq![]
    } else if parts.len() == 1 {
        parts[0]
    } else {
        join_space(parts.drop_last()) + seq![' '] + parts.last()
    }
}

/// Executable `join(" ")` over the parts `parts[from..]`.
pub(crate) fn join_with_space(parts: &Vec<Vec<char>>, from: usize) -> (r: Vec<char>)
    requires
        from <= parts.len(),
    ensures
        r@ == join_space(parts@.skip(from as int).map_values(|p: Vec<char>| p@)),
{
    let ghost views = parts@.skip(from as int).map_values(|p: Vec<char>| p@);
    let mut r: Vec<char> = Vec::new();
    let mut i: usize = from;
    while i < parts.len()
        invariant
            from <= i <= parts.len(),
            views == parts@.skip(from as int).map_values(|p: Vec<char>| p@),
            r@ == join_space(views.take(i - from)),
        decreases parts.len() - i,
    {
        if i > from {
            r.push(' ');
        }
        r = concat(&r, &parts[i]);
        proof {
            assert(views.take(i + 1 - from).drop_last() =~= views.take(i - from));
            assert(views[i - from] == parts@[i as int]@);
            if i == from {
                assert(views.take(1)[0] == views[0]);
            }
        }
        i += 1;
    }
    assert(views.take(parts.len() - from) =~= views);
    r
}

/// The characters before the first occurrence of `c` (all of `s` when absent).
pub open spec fn before_first(s: Seq<char>, c: char) -> Seq<char> {
    match first_index_of(s, c) {
        Some(i) => s.take(i),
        None => s,
    }
}

/// Executable `before_first`.
pub fn take_before(s: &Vec<char>, c: char) -> (r: Vec<char>)
    ensures
        r@ == before_first(s@, c),
{
    proof {
        lemma_first_index_of(s@, c);
    }
    match find_char(s, c) {
        Some(i) => slice_of(s, 0, i),
        None => {
            assert(s@.subrange(0, s.len() as int) =~= s@);
            slice_of(s, 0, s.len())
        },
    }
}

/// Left-to-right, non-overlapping replacement of `pat` by `to`, as `str::replace`
/// does for a non-empty pattern.
pub open spec fn replace_all(s: Seq<char>, pat: Seq<char>, to: Seq<char>) -> Seq<char>
    decreases s.len(),
{
    if s.len() == 0 || pat.len() == 0 {
        s
    } else if has_prefix(s, pat) {
        to + replace_all(s.skip(pat.len() as int), pat, to)
    } else {
        seq![s[0]] + replace_all(s.skip(1), pat, to)
    }
}

/// `s` contains `pat` starting at position `i`.
pub open spec fn occurs_at(s: Seq<char>, pat: Seq<char>, i: int) -> bool {
    0 <= i && i + pat.len() <= s.len() && s.subrange(i, i + pat.len()) == pat
}

/// Replacing a pattern that does not occur leaves the string unchanged.
pub proof fn lemma_replace_absent(s: Seq<char>, pat: Seq<char>, to: Seq<char>)
    requires
        forall|i: int| !occurs_at(s, pat, i),
    ensures
        replace_all(s, pat, to) == s,
    decreases s.len(),
{
    if s.len() > 0 && pat.len() > 0 {
        assert(!occurs_at(s, pat, 0));
        assert(!has_prefix(s, pat)) by {
            if has_prefix(s, pat) {
                assert(s.subrange(0, pat.len() as int) =~= s.take(pat.len() as int));
            }
        }
        assert forall|i: int| !occurs_at(s.skip(1), pat, i) by {
            if occurs_at(s.skip(1), pat, i) {
                assert(s.skip(1).subrange(i, i + pat.len()) =~= s.subrange(
                    i + 1,
                    i + 1 + pat.len(),
                ));
                assert(occurs_at(s, pat, i + 1));
            }
        }
        lemma_replace_absent(s.skip(1), pat, to);
        assert(seq![s[0]] + s.skip(1) =~= s);
    }
}

/// Executable `str::replace` for a non-empty pattern.
pub(crate) fn replace(s: &Vec<char>, pat: &Vec<char>, to: &Vec<char>) -> (r: Vec<char>)
    requires
        pat.len() > 0,
    ensures
        r@ == replace_all(s@, pat@, to@),
{
    let mut r: Vec<char> = Vec::new();
    let mut i: usize = 0;
    assert(s@.skip(0) =~= s@);
    while i < s.len()
        invariant
            i <= s.len(),
            pat.len() > 0,
            replace_all(s@, pat@, to@) == r@ + replace_all(s@.skip(i as int), pat@, to@),
        decreases s.len() - i,
    {
        let ghost rest = s@.skip(i as int);
        let rest_v = slice_of(s, i, s.len());
        assert(rest_v@ =~= rest);
        if starts_with(&rest_v, pat) {
            r = concat(&r, to);
            assert(rest.skip(pat.len() as int) =~= s@.skip(i + pat.len()));
            i += pat.len();
        } else {
            r.push(s[i]);
            assert(rest.skip(1) =~= s@.skip(i + 1));
            i += 1;
        }
    }
    assert(s@.skip(i as int).len() == 0);
    assert(r@ + Seq::<char>::empty() =~= r@);
    r
}

/// Decimal representation of a natural number.
pub open spec fn decimal(n: nat) -> Seq<char>
    decreases n,
{
    if n < 10 {
        seq![digit(n)]
    } else {
        decimal(n / 10) + seq![digit(n % 10)]
    }
}

/// The character for a decimal digit.
pub open spec fn digit(d: nat) -> char {
    if d == 0 {
        '0'
    } else if d == 1 {
        '1'
    } else if d == 2 {
        '2'
    } else if d == 3 {
        '3'
    } else if d == 4 {
        '4'
    } else if d == 5 {
        '5'
    } else if d == 6 {
        '6'
    } else if d == 7 {
        '7'
    } else if d == 8 {
        '8'
    } else {
        '9'
    }
}

fn digit_char(d: usize) -> (c: char)
    requires
        d < 10,
    ensures
        c == digit(d as nat),
{
    if d == 0 {
        '0'
    } else if d == 1 {
        '1'
    } else if d == 2 {
        '2'
    } else if d == 3 {
        '3'
    } else if d == 4 {
        '4'
    } else if d == 5 {
        '5'
    } else if d == 6 {
        '6'
    } else if d == 7 {
        '7'
    } else if d == 8 {
        '8'
    } else {
        '9'
    }
}

/// Decimal representation, as `usize`'s `Display` writes it.
pub fn decimal_of(n: usize) -> (r: Vec<char>)
    ensures
        r@ == decimal(n as nat),
    decreases n,
{
    if n < 10 {
        let mut r = Vec::new();
        r.push(digit_char(n));
        assert(r@ =~= seq![digit(n as nat)]);
        r
    } else {
        let mut r = decimal_of(n / 10);
        r.push(digit_char(n % 10));
        r
    }
}

/// A line without one trailing carriage return.
pub open spec fn strip_cr(l: Seq<char>) -> Seq<char> {
    if l.len() > 0 && l.last() == '\r' {
        l.drop_last()
    } else {
        l
    }
}

/// `str::lines`: split at `\n`, drop a `\r` that precedes a `\n`, and
/// produce no empty last line for a trailing line ending.
pub open spec fn lines(s: Seq<char>) -> Seq<Seq<char>>
    decreases s.len(),
{
    if s.len() == 0 {
        seq![]
    } else {
        match first_index_of(s, '\n') {
            Some(i) => if 0 <= i < s.len() {
                seq![strip_cr(s.take(i))] + lines(s.skip(i + 1))
            } else {
                seq![]
            },
            None => seq![s],
        }
    }
}

/// The lines joined back with a `\n` between each two.
pub open spec fn unlines(ls: Seq<Seq<char>>) -> Seq<char>
    decreases ls.len(),
{
    if ls.len() == 0 {
        seq![]
    } else if ls.len() == 1 {
        ls[0]
    } else {
        ls[0] + seq!['\n'] + unlines(ls.skip(1))
    }
}

/// Splitting text into lines loses nothing but line endings: no line holds
/// a `\n`; non-empty text without `\n` is one line, itself; and text
/// without `\r` is given back by joining its lines with `\n`, but for one
/// final `\n` it may end with.
pub proof fn law_lines_keep_the_text(s: Seq<char>)
    ensures
        forall|k: int| 0 <= k < lines(s).len() ==> !(#[trigger] lines(s)[k]).contains('\n'),
        s.len() > 0 && !s.contains('\n') ==> lines(s) == seq![s],
        !s.contains('\r') ==> if s.len() > 0 && s.last() == '\n' {
            unlines(lines(s)) + seq!['\n'] == s
        } else {
            unlines(lines(s)) == s
        },
    decreases s.len(),
{
    if s.len() == 0 {
        return;
    }
    lemma_first_index_of(s, '\n');
    match first_index_of(s, '\n') {
        Some(i) => {
            let head = strip_cr(s.take(i));
            let rest = s.skip(i + 1);
            law_lines_keep_the_text(rest);
            assert(lines(s) == seq![head] + lines(rest));
            assert(!head.contains('\n')) by {
                if head.contains('\n') {
                    let j = choose|j: int| 0 <= j < head.len() && head[j] == '\n';
                    assert(s[j] == '\n');
                }
            }
            assert forall|k: int| 0 <= k < lines(s).len() implies !(#[trigger] lines(s)[k]).contains(
                '\n',
            ) by {
                if k > 0 {
                    assert(lines(s)[k] == lines(rest)[k - 1]);
                }
            }
            assert(s.contains('\n')) by {
                assert(s[i] == '\n');
            }
            if !s.contains('\r') {
                assert(head == s.take(i)) by {
                    if i > 0 {
                        assert(s.take(i).last() == s[i - 1]);
                        assert(s[i - 1] != '\r') by {
                            if s[i - 1] == '\r' {
                                assert(s.contains('\r'));
                            }
                        }
                    }
                }
                assert(!rest.contains('\r')) by {
                    if rest.contains('\r') {
                        let j = choose|j: int| 0 <= j < rest.len() && rest[j] == '\r';
                        assert(s[i + 1 + j] == '\r');
                    }
                }
                if rest.len() == 0 {
                    assert(lines(rest) == Seq::<Seq<char>>::empty());
                    assert(lines(s) =~= seq![head]);
                    assert(s.last() == '\n');
                    assert(s.take(i) + seq!['\n'] =~= s);
                } else {
                    assert(lines(rest).len() > 0) by {
                        lemma_first_index_of(rest, '\n');
                    }
                    assert(lines(s).skip(1) =~= lines(rest));
                    assert(unlines(lines(s)) == head + seq!['\n'] + unlines(lines(rest)));
                    assert(s.last() == rest.last());
                    if rest.last() == '\n' {
                        assert(head + seq!['\n'] + unlines(lines(rest)) + seq!['\n'] =~= s.take(i)
                            + seq!['\n'] + (unlines(lines(rest)) + seq!['\n']));
                        assert(s.take(i) + seq!['\n'] + rest =~= s);
                    } else {
                        assert(s.take(i) + seq!['\n'] + rest =~= s);
                    }
                }
            }
        },
        None => {
            assert(lines(s) == seq![s]);
            assert(!s.contains('\n'));
            assert(lines(s)[0] == s);
            if s.last() == '\n' {
                assert(s[s.len() - 1] == '\n');
            }
        },
    }
}

/// Executable `str::lines` on characters.
pub fn split_lines(s: &Vec<char>) -> (r: Vec<Vec<char>>)
    ensures
        r@.len() == lines(s@).len(),
        forall|k: int| 0 <= k < r@.len() ==> #[trigger] r@[k]@ == lines(s@)[k],
{
    let mut r: Vec<Vec<char>> = Vec::new();
    let ghost mut acc: Seq<Seq<char>> = seq![];
    let mut i: usize = 0;
    assert(s@.skip(0) =~= s@);
    while i < s.len()
        invariant
            i <= s.len(),
            lines(s@) == acc + lines(s@.skip(i as int)),
            r@.len() == acc.len(),
            forall|k: int| 0 <= k < r@.len() ==> #[trigger] r@[k]@ == acc[k],
        decreases s.len() - i,
    {
        let rest = slice_of(s, i, s.len());
        let ghost rest_s = s@.skip(i as int);
        assert(rest@ =~= rest_s);
        proof {
            lemma_first_index_of(rest_s, '\n');
        }
        match find_char(&rest, '\n') {
            Some(k) => {
                let mut line = slice_of(&rest, 0, k);
                if k > 0 && line[k - 1] == '\r' {
                    line.pop();
                }
                proof {
                    assert(rest_s.take(k as int) =~= rest@.subrange(0, k as int));
                    assert(rest_s.skip(k + 1) =~= s@.skip(i + k + 1));
                    acc = acc + seq![line@];
                }
                r.push(line);
                i = i + k + 1;
                assert(lines(s@) =~= acc + lines(s@.skip(i as int)));
            },
            None => {
                proof {
                    acc = acc + seq![rest@];
                }
                r.push(rest);
                i = s.len();
                assert(s@.skip(i as int) =~= Seq::<char>::empty());
                assert(lines(s@) =~= acc + lines(s@.skip(i as int)));
            },
        }
    }
    proof {
        assert(s@.skip(i as int) =~= Seq::<char>::empty());
        assert(lines(s@) =~= acc);
    }
    r
}

/// `str::split` at a character: the pieces between its occurrences, as many
/// as there are occurrences plus one.
pub open spec fn split_on(s: Seq<char>, c: char) -> Seq<Seq<char>>
    decreases s.len(),
{
    match first_index_of(s, c) {
        Some(i) => if 0 <= i < s.len() {
            seq![s.take(i)] + split_on(s.skip(i + 1), c)
        } else {
            seq![s]
        },
        None => seq![s],
    }
}

/// Executable `split_on`.
pub fn split_char(s: &Vec<char>, c: char) -> (r: Vec<Vec<char>>)
    ensures
        r@.map_values(|p: Vec<char>| p@) == split_on(s@, c),
{
    let mut r: Vec<Vec<char>> = Vec::new();
    let mut rest = s.clone();
    loop
        invariant
            split_on(s@, c) == r@.map_values(|p: Vec<char>| p@) + split_on(rest@, c),
        decreases rest@.len(),
    {
        proof {
            lemma_first_index_of(rest@, c);
        }
        let ghost before = r@.map_values(|p: Vec<char>| p@);
        match find_char(&rest, c) {
            Some(k) => {
                let piece = slice_of(&rest, 0, k);
                let tail = slice_of(&rest, k + 1, rest.len());
                proof {
                    assert(rest@.take(k as int) =~= piece@);
                    assert(rest@.skip(k + 1) =~= tail@);
                }
                r.push(piece);
                assert(r@.map_values(|p: Vec<char>| p@) =~= before + seq![rest@.take(k as int)]);
                rest = tail;
            },
            None => {
                let ghost last = rest@;
                r.push(rest);
                assert(r@.map_values(|p: Vec<char>| p@) =~= before + seq![last]);
                return r;
            },
        }
    }
}

/// The text before the first `c` is the longest prefix without `c`: it is a
/// prefix of `s`, it holds no `c`, and when it is not all of `s`, `c`
/// follows it.
pub proof fn law_before_first_is_longest_prefix_without(s: Seq<char>, c: char)
    ensures
        before_first(s, c).len() <= s.len(),
        s.take(before_first(s, c).len() as int) == before_first(s, c),
        !before_first(s, c).contains(c),
        before_first(s, c).len() < s.len() ==> s[before_first(s, c).len() as int] == c,
{
    lemma_first_index_of(s, c);
    let r = before_first(s, c);
    assert(s.take(r.len() as int) =~= r);
    assert(!r.contains(c)) by {
        if r.contains(c) {
            let j = choose|j: int| 0 <= j < r.len() && r[j] == c;
            assert(s[j] == c);
        }
    }
}

/// The pieces joined back with `c` between each two.
pub open spec fn join_with(ps: Seq<Seq<char>>, c: char) -> Seq<char>
    decreases ps.len(),
{
    if ps.len() == 0 {
        seq![]
    } else if ps.len() == 1 {
        ps[0]
    } else {
        ps[0] + seq![c] + join_with(ps.skip(1), c)
    }
}

/// Splitting at `c` loses nothing but the separators: there is one more
/// piece than there are `c` in the text, no piece holds `c`, and joining
/// the pieces with `c` gives back the text.
pub proof fn law_split_on_keeps_the_text(s: Seq<char>, c: char)
    ensures
        split_on(s, c).len() >= 1,
        forall|k: int| 0 <= k < split_on(s, c).len() ==> !(#[trigger] split_on(s, c)[k]).contains(c),
        join_with(split_on(s, c), c) == s,
    decreases s.len(),
{
    lemma_first_index_of(s, c);
    match first_index_of(s, c) {
        Some(i) => {
            let head = s.take(i);
            let rest = s.skip(i + 1);
            law_split_on_keeps_the_text(rest, c);
            let ps = split_on(s, c);
            assert(ps == seq![head] + split_on(rest, c));
            assert(!head.contains(c)) by {
                if head.contains(c) {
                    let j = choose|j: int| 0 <= j < head.len() && head[j] == c;
                    assert(s[j] == c);
                }
            }
            assert forall|k: int| 0 <= k < ps.len() implies !(#[trigger] ps[k]).contains(c) by {
                if k > 0 {
                    assert(ps[k] == split_on(rest, c)[k - 1]);
                }
            }
            assert(ps.skip(1) =~= split_on(rest, c));
            assert(join_with(ps, c) == head + seq![c] + join_with(split_on(rest, c), c));
            assert(head + seq![c] + rest =~= s);
        },
        None => {
            assert(split_on(s, c) == seq![s]);
            assert(!s.contains(c));
        },
    }
}

/// The lines of a text are its pieces between `\n`s, each with nothing
/// taken off but one `\r` that ends a piece followed by `\n`, and without
/// the empty piece after a final `\n`: so only line endings are lost.
pub proof fn law_lines_are_the_pieces_between_newlines(s: Seq<char>)
    ensures
        s.len() == 0 ==> lines(s).len() == 0,
        s.len() > 0 ==> lines(s).len() == split_on(s, '\n').len() - (if s.last() == '\n' {
            1int
        } else {
            0int
        }),
        forall|k: int|
            0 <= k < lines(s).len() ==> {
                let p = split_on(s, '\n')[k];
                let l = #[trigger] lines(s)[k];
                if k < split_on(s, '\n').len() - 1 && p.len() > 0 && p.last() == '\r' {
                    p == l + seq!['\r']
                } else {
                    p == l
                }
            },
    decreases s.len(),
{
    if s.len() == 0 {
        return;
    }
    lemma_first_index_of(s, '\n');
    match first_index_of(s, '\n') {
        Some(i) => {
            let head = s.take(i);
            let rest = s.skip(i + 1);
            law_lines_are_the_pieces_between_newlines(rest);
            let ls = lines(s);
            let ps = split_on(s, '\n');
            assert(ls == seq![strip_cr(head)] + lines(rest));
            assert(ps == seq![head] + split_on(rest, '\n'));
            if rest.len() == 0 {
                assert(lines(rest).len() == 0);
                assert(split_on(rest, '\n') == seq![rest]);
                assert(s.last() == s[i]);
            } else {
                assert(rest.last() == s.last());
            }
            assert(split_on(rest, '\n').len() >= 1) by {
                law_split_on_keeps_the_text(rest, '\n');
            }
            assert forall|k: int| 0 <= k < ls.len() implies {
                let p = ps[k];
                let l = #[trigger] ls[k];
                if k < ps.len() - 1 && p.len() > 0 && p.last() == '\r' {
                    p == l + seq!['\r']
                } else {
                    p == l
                }
            } by {
                if k == 0 {
                    if head.len() > 0 && head.last() == '\r' {
                        assert(head =~= head.drop_last() + seq!['\r']);
                    }
                } else {
                    assert(ls[k] == lines(rest)[k - 1]);
                    assert(ps[k] == split_on(rest, '\n')[k - 1]);
                }
            }
        },
        None => {
            assert(lines(s) == seq![s]);
            assert(split_on(s, '\n') == seq![s]);
            assert(s.last() == s[s.len() - 1]);
        },
    }
}

/// The numeric value of a text of decimal digits.
pub open spec fn decimal_value(s: Seq<char>) -> int
    decreases s.len(),
{
    if s.len() == 0 {
        0
    } else {
        decimal_value(s.drop_last()) * 10 + ((s.last() as int) - ('0' as int))
    }
}

/// A decimal digit character.
pub open spec fn is_digit(c: char) -> bool {
    '0' <= c && c <= '9'
}

/// `decimal(n)` is how `n` is written in decimal: only digits, with the
/// value `n`, and no leading zero unless `n` is zero.
pub proof fn law_decimal_writes_the_number(n: nat)
    ensures
        decimal(n).len() >= 1,
        forall|k: int| 0 <= k < decimal(n).len() ==> is_digit(#[trigger] decimal(n)[k]),
        decimal_value(decimal(n)) == n,
        decimal(n)[0] == '0' ==> n == 0,
    decreases n,
{
    if n >= 10 {
        let q = n / 10;
        let r = n % 10;
        law_decimal_writes_the_number(q as nat);
        let d = decimal(q as nat);
        assert(decimal(n) == d + seq![digit(r as nat)]);
        assert((d + seq![digit(r as nat)]).drop_last() =~= d);
        assert(((digit(r as nat) as int) - ('0' as int)) == r);
        assert(q * 10 + r == n);
        assert forall|k: int| 0 <= k < decimal(n).len() implies is_digit(#[trigger] decimal(n)[k]) by {
            if k < d.len() {
                assert(decimal(n)[k] == d[k]);
            }
        }
        assert(decimal(n)[0] == d[0]);
        assert(q > 0);
    } else {
        assert(decimal(n) == seq![digit(n)]);
        assert(seq![digit(n)].drop_last() =~= Seq::<char>::empty());
        assert(((digit(n) as int) - ('0' as int)) == n);
        assert(decimal_value(seq![digit(n)]) == decimal_value(Seq::<char>::empty()) * 10 + ((
        digit(n) as int) - ('0' as int)));
    }
}

/// What `str::to_uppercase` gives for a text.
pub uninterp spec fn std_uppercase(s: Seq<char>) -> Seq<char>;

/// Calls `str::to_uppercase`, which maps every character to its Unicode
/// upper case; the contract only names the result.
#[verifier::external_body]
pub(crate) fn to_uppercase(s: &str) -> (r: String)
    ensures
        r@ == std_uppercase(s@),
{
    s.to_uppercase()
}

/// An owned copy of a string slice.
pub fn own(s: &str) -> (r: String)
    ensures
        r@ == s@,
{
    s.to_owned()
}

} // verus!
