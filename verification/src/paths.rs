//! Lexical model of Unix paths: components, equality, prefix and joining;
//! and the last-resort canonicalisation that calls `path-clean`.
use vstd::prelude::*;
use crate::text::{chars_of, concat, slice_of, string_of, vec_eq};

verus! {

/// `Path::is_absolute` on Unix: the path begins with a separator.
pub open spec fn is_absolute(s: Seq<char>) -> bool {
    s.len() > 0 && s[0] == '/'
}

/// Executable `is_absolute`.
pub fn path_is_absolute(s: &Vec<char>) -> (r: bool)
    ensures
        r == is_absolute(s@),
{
    s.len() > 0 && s[0] == '/'
}

/// Length of the leading run of characters that are not `/`.
pub open spec fn segment_len(s: Seq<char>) -> nat
    decreases s.len(),
{
    if s.len() > 0 && s[0] != '/' {
        1 + segment_len(s.skip(1))
    } else {
        0
    }
}

proof fn lemma_segment_len(s: Seq<char>)
    ensures
        segment_len(s) <= s.len(),
        segment_len(s) < s.len() ==> s[segment_len(s) as int] == '/',
    decreases s.len(),
{
    if s.len() > 0 && s[0] != '/' {
        lemma_segment_len(s.skip(1));
    }
}

/// The path's pieces between separators, without empty pieces and without `.`.
pub open spec fn segments(s: Seq<char>) -> Seq<Seq<char>>
    decreases s.len(),
{
    if s.len() == 0 {
        seq![]
    } else if s[0] == '/' {
        segments(s.skip(1))
    } else {
        let n = segment_len(s);
        if 0 < n <= s.len() {
            let piece = s.take(n as int);
            (if piece == seq!['.'] {
                Seq::<Seq<char>>::empty()
            } else {
                seq![piece]
            }) + segments(s.skip(n as int))
        } else {
            seq![]
        }
    }
}

/// A relative path that begins with the component `.`.
pub open spec fn leading_cur_dir(s: Seq<char>) -> bool {
    !is_absolute(s) && s.len() > 0 && s[0] == '.' && (s.len() == 1 || s[1] == '/')
}

/// `Path::components` on Unix, each component written as text: the root is
/// `/`, a leading current-directory component is `.`.
pub open spec fn components(s: Seq<char>) -> Seq<Seq<char>> {
    (if is_absolute(s) {
        seq![seq!['/']]
    } else {
        Seq::<Seq<char>>::empty()
    }) + (if leading_cur_dir(s) {
        seq![seq!['.']]
    } else {
        Seq::<Seq<char>>::empty()
    }) + segments(s)
}

/// `Path == Path`: equal component sequences.
pub open spec fn path_eq(a: Seq<char>, b: Seq<char>) -> bool {
    components(a) == components(b)
}

/// `Path::starts_with`: the components of `base` are a prefix of those of `p`.
pub open spec fn path_starts_with(p: Seq<char>, base: Seq<char>) -> bool {
    let cp = components(p);
    let cb = components(base);
    cb.len() <= cp.len() && cp.take(cb.len() as int) == cb
}

/// Executable `segments`.
fn segments_of(s: &Vec<char>) -> (r: Vec<Vec<char>>)
    ensures
        r@.len() == segments(s@).len(),
        forall|k: int| 0 <= k < r@.len() ==> #[trigger] r@[k]@ == segments(s@)[k],
{
    let mut r: Vec<Vec<char>> = Vec::new();
    let ghost mut acc: Seq<Seq<char>> = seq![];
    let mut i: usize = 0;
    assert(s@.skip(0) =~= s@);
    let dot = vec!['.'];
    assert(dot@ =~= seq!['.']);
    while i < s.len()
        invariant
            i <= s.len(),
            dot@ == seq!['.'],
            segments(s@) == acc + segments(s@.skip(i as int)),
            r@.len() == acc.len(),
            forall|k: int| 0 <= k < r@.len() ==> #[trigger] r@[k]@ == acc[k],
        decreases s.len() - i,
    {
        let ghost rest = s@.skip(i as int);
        if s[i] == '/' {
            assert(rest.skip(1) =~= s@.skip(i + 1));
            i += 1;
        } else {
            let mut j: usize = i;
            while j < s.len() && s[j] != '/'
                invariant
                    i <= j <= s.len(),
                    rest == s@.skip(i as int),
                    segment_len(rest) == (j - i) + segment_len(s@.skip(j as int)),
                decreases s.len() - j,
            {
                assert(s@.skip(j as int).skip(1) =~= s@.skip(j + 1));
                j += 1;
            }
            let w = slice_of(s, i, j);
            proof {
                lemma_segment_len(rest);
                lemma_segment_len(s@.skip(j as int));
                assert(rest.take((j - i) as int) =~= s@.subrange(i as int, j as int));
                assert(rest.skip((j - i) as int) =~= s@.skip(j as int));
            }
            if !vec_eq(&w, &dot) {
                proof {
                    acc = acc + seq![w@];
                }
                r.push(w);
            }
            i = j;
            assert(segments(s@) =~= acc + segments(s@.skip(i as int)));
        }
    }
    proof {
        assert(s@.skip(i as int) =~= Seq::<char>::empty());
        assert(segments(s@) =~= acc);
    }
    r
}

/// Executable `components`.
pub fn components_of(s: &Vec<char>) -> (r: Vec<Vec<char>>)
    ensures
        r@.len() == components(s@).len(),
        forall|k: int| 0 <= k < r@.len() ==> #[trigger] r@[k]@ == components(s@)[k],
{
    let mut r: Vec<Vec<char>> = Vec::new();
    let ghost mut head: Seq<Seq<char>> = seq![];
    if path_is_absolute(s) {
        let root = vec!['/'];
        assert(root@ =~= seq!['/']);
        proof {
            head = head + seq![root@];
        }
        r.push(root);
    }
    if !path_is_absolute(s) && s.len() > 0 && s[0] == '.' && (s.len() == 1 || s[1] == '/') {
        let cur = vec!['.'];
        assert(cur@ =~= seq!['.']);
        proof {
            head = head + seq![cur@];
        }
        r.push(cur);
    }
    proof {
        assert(head =~= (if is_absolute(s@) {
            seq![seq!['/']]
        } else {
            Seq::<Seq<char>>::empty()
        }) + (if leading_cur_dir(s@) {
            seq![seq!['.']]
        } else {
            Seq::<Seq<char>>::empty()
        }));
    }
    let segs = segments_of(s);
    let ghost start = r@.len();
    let mut k: usize = 0;
    while k < segs.len()
        invariant
            k <= segs.len(),
            r@.len() == head.len() + k,
            start == head.len(),
            segs@.len() == segments(s@).len(),
            forall|m: int| 0 <= m < segs@.len() ==> #[trigger] segs@[m]@ == segments(s@)[m],
            forall|m: int| 0 <= m < head.len() ==> #[trigger] r@[m]@ == head[m],
            forall|m: int| head.len() <= m < r@.len() ==> #[trigger] r@[m]@ == segments(s@)[m - head.len()],
        decreases segs.len() - k,
    {
        r.push(segs[k].clone());
        k += 1;
    }
    assert forall|m: int| 0 <= m < r@.len() implies #[trigger] r@[m]@ == components(s@)[m] by {
        if m < head.len() {
        } else {
        }
    }
    r
}

/// Equality of two component lists.
fn components_eq(a: &Vec<Vec<char>>, b: &Vec<Vec<char>>, n: usize) -> (r: bool)
    requires
        n <= a.len(),
        n <= b.len(),
    ensures
        r == forall|k: int| 0 <= k < n ==> #[trigger] a@[k]@ == b@[k]@,
{
    let mut i: usize = 0;
    while i < n
        invariant
            i <= n,
            n <= a.len(),
            n <= b.len(),
            forall|k: int| 0 <= k < i ==> #[trigger] a@[k]@ == b@[k]@,
        decreases n - i,
    {
        if !vec_eq(&a[i], &b[i]) {
            return false;
        }
        i += 1;
    }
    true
}

/// Executable `Path == Path`.
pub fn path_equal(a: &Vec<char>, b: &Vec<char>) -> (r: bool)
    ensures
        r == path_eq(a@, b@),
{
    let ca = components_of(a);
    let cb = components_of(b);
    if ca.len() != cb.len() {
        return false;
    }
    let r = components_eq(&ca, &cb, ca.len());
    proof {
        if r {
            assert forall|k: int| 0 <= k < components(a@).len() implies components(a@)[k]
                == components(b@)[k] by {
                assert(ca@[k]@ == cb@[k]@);
            }
            assert(components(a@) =~= components(b@));
        } else {
            let k = choose|k: int| 0 <= k < ca.len() && !(#[trigger] ca@[k]@ == cb@[k]@);
            assert(components(a@)[k] != components(b@)[k]);
        }
    }
    r
}

/// Executable `Path::starts_with`.
pub fn path_has_prefix(p: &Vec<char>, base: &Vec<char>) -> (r: bool)
    ensures
        r == path_starts_with(p@, base@),
{
    let cp = components_of(p);
    let cb = components_of(base);
    if cb.len() > cp.len() {
        return false;
    }
    let r = components_eq(&cp, &cb, cb.len());
    proof {
        let n = cb.len() as int;
        if r {
            assert forall|k: int| 0 <= k < n implies components(p@).take(n)[k] == components(
                base@,
            )[k] by {
                assert(cp@[k]@ == cb@[k]@);
            }
            assert(components(p@).take(n) =~= components(base@));
        } else {
            let k = choose|k: int| 0 <= k < n && !(#[trigger] cp@[k]@ == cb@[k]@);
            assert(components(p@).take(n)[k] != components(base@)[k]);
        }
    }
    r
}

/// `Path::join` on Unix: an absolute `p` replaces `base`; otherwise a separator
/// is inserted when `base` is non-empty and does not already end with one.
pub open spec fn join(base: Seq<char>, p: Seq<char>) -> Seq<char> {
    if is_absolute(p) {
        p
    } else if base.len() == 0 || base.last() == '/' {
        base + p
    } else {
        base + seq!['/'] + p
    }
}

/// Executable `join`.
pub fn path_join(base: &Vec<char>, p: &Vec<char>) -> (r: Vec<char>)
    ensures
        r@ == join(base@, p@),
{
    if path_is_absolute(p) {
        p.clone()
    } else if base.len() == 0 || base[base.len() - 1] == '/' {
        concat(base, p)
    } else {
        let mut b = base.clone();
        b.push('/');
        assert(b@ =~= base@ + seq!['/']);
        concat(&b, p)
    }
}

/// The result of `path_clean::clean` applied to a path.
pub uninterp spec fn cleaned(path: Seq<char>) -> Seq<char>;

/// Calls `path_clean::clean`, which resolves `.` and `..` components and
/// repeated separators lexically; the contract only names the result.
#[verifier::external_body]
fn clean_path(path: &str) -> (r: String)
    ensures
        r@ == cleaned(path@),
{
    path_clean::clean(path).display().to_string()
}

/// The last resort of path canonicalisation, used when the filesystem cannot
/// resolve a path: an absolute path is cleaned as it is; a relative path is
/// first joined to the working directory when that is known.
pub open spec fn lexical_canonical(path: Seq<char>, cwd: Option<Seq<char>>) -> Seq<char> {
    if is_absolute(path) {
        cleaned(path)
    } else {
        match cwd {
            Some(d) => cleaned(join(d, path)),
            None => cleaned(path),
        }
    }
}

/// Executable `lexical_canonical`.
pub fn normalize_path(path: &str, cwd: Option<&str>) -> (r: String)
    ensures
        r@ == lexical_canonical(path@, match cwd {
            Some(d) => Some(d@),
            None => None,
        }),
{
    let p = chars_of(path);
    if path_is_absolute(&p) {
        clean_path(path)
    } else {
        match cwd {
            Some(d) => {
                let joined = string_of(&path_join(&chars_of(d), &p));
                clean_path(joined.as_str())
            },
            None => clean_path(path),
        }
    }
}

/// The parent directory `std::path::Path::parent` gives for a path.
pub uninterp spec fn std_path_parent(path: Seq<char>) -> Option<Seq<char>>;

/// Calls `std::path::Path::parent`, which drops the last component of a
/// path (`None` for a root or an empty path); the contract only names the
/// result.
#[verifier::external_body]
pub(crate) fn path_parent(path: &str) -> (r: Option<String>)
    ensures
        match r {
            Some(p) => std_path_parent(path@) == Some(p@),
            None => std_path_parent(path@) is None,
        },
{
    match std::path::Path::new(path).parent() {
        Some(p) => Some(p.display().to_string()),
        None => None,
    }
}

/// The last component `std::path::Path::file_name` gives for a path.
pub uninterp spec fn std_file_name(path: Seq<char>) -> Option<Seq<char>>;

/// Calls `std::path::Path::file_name`, which gives the last component of a
/// path unless it is `..` or there is none; the contract only names the
/// result.
#[verifier::external_body]
pub(crate) fn path_file_name(path: &str) -> (r: Option<String>)
    ensures
        match r {
            Some(f) => std_file_name(path@) == Some(f@),
            None => std_file_name(path@) is None,
        },
{
    match std::path::Path::new(path).file_name() {
        Some(f) => Some(f.to_string_lossy().into_owned()),
        None => None,
    }
}

} // verus!
