use vstd::prelude::*;

verus! {

/// The characters of `s`, in order.
pub fn chars_of(s: &str) -> (v: Vec<char>)
    ensures
        v@ == s@,
{
    let mut v: Vec<char> = Vec::new();
    for c in it: s.chars()
        invariant
            v@ == it.history(),
    {
        v.push(c);
    }
    v
}

/// `String::push`: appends one character at the end of the string.
#[verifier::external_body]
pub(crate) fn push_char(s: &mut String, c: char)
    ensures
        final(s)@ == old(s)@.push(c),
{
    s.push(c)
}

/// Appends `other` at the end of `s`.
pub fn push_str(s: &mut String, other: &str)
    ensures
        final(s)@ == old(s)@ + other@,
{
    s.append(other);
}

/// A new string holding a copy of `s`.
pub fn string_of(s: &str) -> (r: String)
    ensures
        r@ == s@,
{
    String::from_str(s)
}

/// A new string made of the characters of `cs`.
pub fn string_from_chars(cs: &[char]) -> (r: String)
    ensures
        r@ == cs@,
{
    let mut r = String::new();
    let mut i: usize = 0;
    while i < cs.len()
        invariant
            i <= cs@.len(),
            r@ == cs@.take(i as int),
        decreases cs@.len() - i,
    {
        push_char(&mut r, cs[i]);
        assert(cs@.take(i as int).push(cs@[i as int]) =~= cs@.take(i + 1));
        i = i + 1;
    }
    assert(cs@.take(cs@.len() as int) =~= cs@);
    r
}

} // verus!

verus! {

/// The characters `cs[lo..hi]` as a new string.
pub fn string_from_range(cs: &Vec<char>, lo: usize, hi: usize) -> (r: String)
    requires
        lo <= hi <= cs@.len(),
    ensures
        r@ == cs@.subrange(lo as int, hi as int),
{
    let mut r = String::new();
    let mut i: usize = lo;
    while i < hi
        invariant
            lo <= i <= hi <= cs@.len(),
            r@ == cs@.subrange(lo as int, i as int),
        decreases hi - i,
    {
        push_char(&mut r, cs[i]);
        assert(cs@.subrange(lo as int, i as int).push(cs@[i as int]) =~= cs@.subrange(
            lo as int,
            i + 1,
        ));
        i = i + 1;
    }
    r
}

/// Whether two strings hold the same characters.
pub fn str_eq(a: &str, b: &str) -> (r: bool)
    ensures
        r == (a@ == b@),
{
    let x = chars_of(a);
    let y = chars_of(b);
    if x.len() != y.len() {
        return false;
    }
    let mut i: usize = 0;
    while i < x.len()
        invariant
            x@ == a@,
            y@ == b@,
            x@.len() == y@.len(),
            i <= x@.len(),
            forall|j: int| 0 <= j < i ==> x@[j] == y@[j],
        decreases x@.len() - i,
    {
        if x[i] != y[i] {
            return false;
        }
        i = i + 1;
    }
    assert(x@ =~= y@);
    true
}

/// The index of the first occurrence of `c` in `s`, if any.
pub open spec fn first_index_of(s: Seq<char>, c: char) -> Option<int>
    decreases s.len(),
{
    if s.len() == 0 {
        None
    } else {
        match first_index_of(s.drop_last(), c) {
            Some(i) => Some(i),
            None => if s.last() == c {
                Some(s.len() - 1)
            } else {
                None
            },
        }
    }
}

pub proof fn lemma_first_index_of(s: Seq<char>, c: char)
    ensures
        first_index_of(s, c) matches Some(i) ==> 0 <= i < s.len() && s[i] == c && forall|
            j: int,
        |
            0 <= j < i ==> s[j] != c,
        first_index_of(s, c) is None ==> forall|j: int| 0 <= j < s.len() ==> s[j] != c,
    decreases s.len(),
{
    if s.len() > 0 {
        let t = s.drop_last();
        lemma_first_index_of(t, c);
        assert(forall|j: int| 0 <= j < t.len() ==> t[j] == s[j]);
    }
}

/// The position of the first `c` in `cs`, if any.
pub fn find_char(cs: &Vec<char>, c: char) -> (r: Option<usize>)
    ensures
        r matches Some(i) ==> Some(i as int) == first_index_of(cs@, c),
        r is None ==> first_index_of(cs@, c) is None,
{
    let mut i: usize = 0;
    while i < cs.len()
        invariant
            i <= cs@.len(),
            forall|j: int| 0 <= j < i ==> cs@[j] != c,
        decreases cs@.len() - i,
    {
        if cs[i] == c {
            proof {
                lemma_first_index_of(cs@, c);
                if first_index_of(cs@, c) is None {
                    assert(cs@[i as int] != c);
                }
            }
            return Some(i);
        }
        i = i + 1;
    }
    proof {
        lemma_first_index_of(cs@, c);
    }
    None
}

/// `str::split_once` with a one-character delimiter: the text before the
/// first `c` and the text after it.
pub open spec fn split_once_spec(s: Seq<char>, c: char) -> Option<(Seq<char>, Seq<char>)> {
    match first_index_of(s, c) {
        Some(i) => Some((s.subrange(0, i), s.subrange(i + 1, s.len() as int))),
        None => None,
    }
}

pub fn split_once(s: &str, c: char) -> (r: Option<(String, String)>)
    ensures
        r matches Some(p) ==> split_once_spec(s@, c) == Some((p.0@, p.1@)),
        r is None ==> split_once_spec(s@, c) is None,
{
    let cs = chars_of(s);
    match find_char(&cs, c) {
        Some(i) => {
            proof {
                lemma_first_index_of(cs@, c);
            }
            let n = cs.len();
            assert(i < n);
            let a = string_from_range(&cs, 0, i);
            let b = string_from_range(&cs, i + 1, n);
            Some((a, b))
        },
        None => None,
    }
}

/// Whether `s` holds `pat` as a contiguous run of characters.
pub open spec fn contains_seq(s: Seq<char>, pat: Seq<char>) -> bool {
    exists|i: int| 0 <= i <= s.len() - pat.len() && #[trigger] s.subrange(i, i + pat.len()) == pat
}

/// Whether `pat` occurs in `s` starting at `i`.
pub fn occurs_at(s: &Vec<char>, pat: &Vec<char>, i: usize) -> (r: bool)
    requires
        i + pat@.len() <= s@.len(),
    ensures
        r == (s@.subrange(i as int, i + pat@.len()) == pat@),
{
    let n = s.len();
    let mut j: usize = 0;
    while j < pat.len()
        invariant
            n == s@.len(),
            i + pat@.len() <= s@.len(),
            j <= pat@.len(),
            forall|k: int| 0 <= k < j ==> s@[i + k] == pat@[k],
        decreases pat@.len() - j,
    {
        if s[i + j] != pat[j] {
            assert(s@.subrange(i as int, i + pat@.len())[j as int] != pat@[j as int]);
            return false;
        }
        j = j + 1;
    }
    assert(s@.subrange(i as int, i + pat@.len()) =~= pat@);
    true
}

/// `str::contains` for a string pattern.
pub fn contains_str(s: &str, pat: &str) -> (r: bool)
    ensures
        r == contains_seq(s@, pat@),
{
    let cs = chars_of(s);
    let ps = chars_of(pat);
    if ps.len() > cs.len() {
        return false;
    }
    let mut i: usize = 0;
    let last = cs.len() - ps.len();
    while i <= last
        invariant
            last == cs@.len() - ps@.len(),
            cs@ == s@,
            ps@ == pat@,
            ps@.len() <= cs@.len(),
            i <= last + 1,
            forall|k: int| 0 <= k < i ==> #[trigger] cs@.subrange(k, k + ps@.len()) != ps@,
        decreases last + 1 - i,
    {
        if occurs_at(&cs, &ps, i) {
            return true;
        }
        if i == last {
            return false;
        }
        i = i + 1;
    }
    false
}

/// Whether `s` begins with `p`.
pub open spec fn starts_with_seq(s: Seq<char>, p: Seq<char>) -> bool {
    p.len() <= s.len() && s.subrange(0, p.len() as int) == p
}

/// Whether `s` ends with `p`.
pub open spec fn ends_with_seq(s: Seq<char>, p: Seq<char>) -> bool {
    p.len() <= s.len() && s.subrange(s.len() - p.len(), s.len() as int) == p
}

pub fn starts_with(s: &str, p: &str) -> (r: bool)
    ensures
        r == starts_with_seq(s@, p@),
{
    let cs = chars_of(s);
    let ps = chars_of(p);
    if ps.len() > cs.len() {
        false
    } else {
        occurs_at(&cs, &ps, 0)
    }
}

pub fn ends_with(s: &str, p: &str) -> (r: bool)
    ensures
        r == ends_with_seq(s@, p@),
{
    let cs = chars_of(s);
    let ps = chars_of(p);
    if ps.len() > cs.len() {
        false
    } else {
        occurs_at(&cs, &ps, cs.len() - ps.len())
    }
}

} // verus!

verus! {

/// What `str::to_uppercase` returns for a string: the Unicode upper-case
/// mapping of each character, one after the other.
pub uninterp spec fn to_uppercase_spec(s: Seq<char>) -> Seq<char>;

/// `str::to_uppercase`. The contract names the result; it states nothing of
/// the Unicode case tables themselves.
#[verifier::external_body]
pub(crate) fn to_uppercase(s: &str) -> (r: String)
    ensures
        r@ == to_uppercase_spec(s@),
{
    s.to_uppercase()
}

} // verus!

verus! {

/// `char::is_whitespace`: the characters with the Unicode `White_Space`
/// property.
pub open spec fn is_whitespace_spec(c: char) -> bool {
    ('\u{9}' <= c <= '\u{d}') || c == ' ' || c == '\u{85}' || c == '\u{a0}' || c == '\u{1680}'
        || ('\u{2000}' <= c <= '\u{200a}') || c == '\u{2028}' || c == '\u{2029}' || c == '\u{202f}'
        || c == '\u{205f}' || c == '\u{3000}'
}

pub fn is_whitespace(c: char) -> (r: bool)
    ensures
        r == is_whitespace_spec(c),
{
    ('\u{9}' <= c && c <= '\u{d}') || c == ' ' || c == '\u{85}' || c == '\u{a0}' || c == '\u{1680}'
        || ('\u{2000}' <= c && c <= '\u{200a}') || c == '\u{2028}' || c == '\u{2029}' || c
        == '\u{202f}' || c == '\u{205f}' || c == '\u{3000}'
}

/// The number of leading whitespace characters.
pub open spec fn leading_ws(s: Seq<char>) -> nat
    decreases s.len(),
{
    if s.len() == 0 || !is_whitespace_spec(s[0]) {
        0
    } else {
        1 + leading_ws(s.drop_first())
    }
}

/// The number of trailing whitespace characters.
pub open spec fn trailing_ws(s: Seq<char>) -> nat
    decreases s.len(),
{
    if s.len() == 0 || !is_whitespace_spec(s.last()) {
        0
    } else {
        1 + trailing_ws(s.drop_last())
    }
}

/// `str::trim_start`.
pub open spec fn trim_start_spec(s: Seq<char>) -> Seq<char> {
    s.subrange(leading_ws(s) as int, s.len() as int)
}

/// `str::trim_end`.
pub open spec fn trim_end_spec(s: Seq<char>) -> Seq<char> {
    s.subrange(0, s.len() - trailing_ws(s))
}

/// `str::trim`.
pub open spec fn trim_spec(s: Seq<char>) -> Seq<char> {
    trim_end_spec(trim_start_spec(s))
}

proof fn lemma_leading_ws(s: Seq<char>)
    ensures
        leading_ws(s) <= s.len(),
        forall|i: int| 0 <= i < leading_ws(s) ==> is_whitespace_spec(#[trigger] s[i]),
        leading_ws(s) < s.len() ==> !is_whitespace_spec(s[leading_ws(s) as int]),
    decreases s.len(),
{
    if s.len() > 0 && is_whitespace_spec(s[0]) {
        lemma_leading_ws(s.drop_first());
        assert forall|i: int| 0 <= i < leading_ws(s) implies is_whitespace_spec(#[trigger] s[i]) by {
            if i > 0 {
                assert(s[i] == s.drop_first()[i - 1]);
            }
        }
    }
}

proof fn lemma_trailing_ws(s: Seq<char>)
    ensures
        trailing_ws(s) <= s.len(),
        forall|i: int| s.len() - trailing_ws(s) <= i < s.len() ==> is_whitespace_spec(#[trigger] s[i]),
        trailing_ws(s) < s.len() ==> !is_whitespace_spec(s[s.len() - trailing_ws(s) - 1]),
    decreases s.len(),
{
    if s.len() > 0 && is_whitespace_spec(s.last()) {
        lemma_trailing_ws(s.drop_last());
        assert forall|i: int| s.len() - trailing_ws(s) <= i < s.len() implies is_whitespace_spec(#[trigger] s[i]) by {
            if i < s.len() - 1 {
                assert(s[i] == s.drop_last()[i]);
            }
        }
    }
}

pub proof fn lemma_leading_ws_unique(s: Seq<char>, k: int)
    requires
        0 <= k <= s.len(),
        forall|i: int| 0 <= i < k ==> is_whitespace_spec(#[trigger] s[i]),
        k < s.len() ==> !is_whitespace_spec(s[k]),
    ensures
        leading_ws(s) == k,
    decreases s.len(),
{
    if k > 0 {
        assert(is_whitespace_spec(s[0]));
        assert forall|i: int| 0 <= i < k - 1 implies is_whitespace_spec(#[trigger] s.drop_first()[i]) by {
            assert(s.drop_first()[i] == s[i + 1]);
        }
        lemma_leading_ws_unique(s.drop_first(), k - 1);
    }
}

pub proof fn lemma_trailing_ws_unique(s: Seq<char>, k: int)
    requires
        0 <= k <= s.len(),
        forall|i: int| s.len() - k <= i < s.len() ==> is_whitespace_spec(#[trigger] s[i]),
        k < s.len() ==> !is_whitespace_spec(s[s.len() - k - 1]),
    ensures
        trailing_ws(s) == k,
    decreases s.len(),
{
    if k > 0 {
        assert(is_whitespace_spec(s[s.len() - 1]));
        assert forall|i: int| s.len() - 1 - (k - 1) <= i < s.len() - 1 implies is_whitespace_spec(#[trigger] s.drop_last()[i]) by {
            assert(s.drop_last()[i] == s[i]);
        }
        lemma_trailing_ws_unique(s.drop_last(), k - 1);
    }
}

/// The characters of `cs[lo..hi]` without leading and trailing whitespace,
/// as the bounds of that run.
pub fn trim_bounds(cs: &Vec<char>, lo: usize, hi: usize) -> (r: (usize, usize))
    requires
        lo <= hi <= cs@.len(),
    ensures
        lo <= r.0 <= r.1 <= hi,
        cs@.subrange(r.0 as int, r.1 as int) == trim_spec(cs@.subrange(lo as int, hi as int)),
{
    let ghost s = cs@.subrange(lo as int, hi as int);
    let mut a: usize = lo;
    while a < hi && is_whitespace(cs[a])
        invariant
            lo <= a <= hi <= cs@.len(),
            s == cs@.subrange(lo as int, hi as int),
            forall|i: int| 0 <= i < a - lo ==> is_whitespace_spec(#[trigger] s[i]),
        decreases hi - a,
    {
        a = a + 1;
    }
    proof {
        lemma_leading_ws_unique(s, a - lo);
    }
    let ghost t = trim_start_spec(s);
    assert(t =~= cs@.subrange(a as int, hi as int));
    let mut b: usize = hi;
    while b > a && is_whitespace(cs[b - 1])
        invariant
            lo <= a <= b <= hi <= cs@.len(),
            t == cs@.subrange(a as int, hi as int),
            forall|i: int| t.len() - (hi - b) <= i < t.len() ==> is_whitespace_spec(#[trigger] t[i]),
        decreases b - a,
    {
        b = b - 1;
    }
    proof {
        lemma_trailing_ws_unique(t, hi - b);
        assert(cs@.subrange(a as int, b as int) =~= trim_end_spec(t));
    }
    (a, b)
}

/// `str::trim`.
pub fn trim(s: &str) -> (r: String)
    ensures
        r@ == trim_spec(s@),
{
    let cs = chars_of(s);
    let (a, b) = trim_bounds(&cs, 0, cs.len());
    proof {
        assert(cs@.subrange(0, cs@.len() as int) =~= cs@);
    }
    string_from_range(&cs, a, b)
}

/// `str::trim_start`.
pub fn trim_start(s: &str) -> (r: String)
    ensures
        r@ == trim_start_spec(s@),
{
    let cs = chars_of(s);
    let mut a: usize = 0;
    while a < cs.len() && is_whitespace(cs[a])
        invariant
            cs@ == s@,
            a <= cs@.len(),
            forall|i: int| 0 <= i < a ==> is_whitespace_spec(#[trigger] cs@[i]),
        decreases cs@.len() - a,
    {
        a = a + 1;
    }
    proof {
        lemma_leading_ws_unique(cs@, a as int);
    }
    string_from_range(&cs, a, cs.len())
}

/// `s` cut at every `c`: one piece more than there are `c`s.
pub open spec fn split_on(s: Seq<char>, c: char) -> Seq<Seq<char>>
    decreases s.len(),
{
    if s.len() == 0 {
        seq![Seq::empty()]
    } else {
        let p = split_on(s.drop_last(), c);
        if s.last() == c {
            p.push(Seq::empty())
        } else {
            p.update(p.len() - 1, p.last().push(s.last()))
        }
    }
}

proof fn lemma_split_on_len(s: Seq<char>, c: char)
    ensures
        split_on(s, c).len() >= 1,
    decreases s.len(),
{
    if s.len() > 0 {
        lemma_split_on_len(s.drop_last(), c);
    }
}

/// A line without its `\r`.
pub open spec fn strip_cr(l: Seq<char>) -> Seq<char> {
    if l.len() > 0 && l.last() == '\r' {
        l.drop_last()
    } else {
        l
    }
}

/// `str::lines`: the text cut at each `\n`, each line that ended with `\n`
/// losing a `\r` before it, and no empty line after a final `\n`.
pub open spec fn lines_spec(s: Seq<char>) -> Seq<Seq<char>> {
    if s.len() == 0 {
        Seq::empty()
    } else {
        let p = split_on(s, '\n');
        let terminated = s.last() == '\n';
        let q = if terminated {
            p.drop_last()
        } else {
            p
        };
        Seq::new(
            q.len(),
            |i: int|
                if i < q.len() - 1 || terminated {
                    strip_cr(q[i])
                } else {
                    q[i]
                },
        )
    }
}

/// The lines joined with `sep` between them.
pub open spec fn join_spec(ls: Seq<Seq<char>>, sep: Seq<char>) -> Seq<char>
    decreases ls.len(),
{
    if ls.len() == 0 {
        Seq::empty()
    } else if ls.len() == 1 {
        ls[0]
    } else {
        join_spec(ls.drop_last(), sep) + sep + ls.last()
    }
}

/// The lines of `s`, as character vectors.
pub fn lines(s: &str) -> (r: Vec<Vec<char>>)
    ensures
        r@.map_values(|l: Vec<char>| l@) == lines_spec(s@),
{
    let cs = chars_of(s);
    let n = cs.len();
    if n == 0 {
        let r: Vec<Vec<char>> = Vec::new();
        assert(r@.map_values(|l: Vec<char>| l@) =~= lines_spec(s@));
        return r;
    }
    let mut pieces: Vec<Vec<char>> = Vec::new();
    pieces.push(Vec::new());
    let mut i: usize = 0;
    proof {
        assert(cs@.take(0) =~= Seq::<char>::empty());
        assert(pieces@.map_values(|l: Vec<char>| l@) =~= split_on(cs@.take(0), '\n'));
    }
    while i < n
        invariant
            cs@ == s@,
            n == cs@.len(),
            i <= n,
            pieces@.len() >= 1,
            pieces@.map_values(|l: Vec<char>| l@) == split_on(cs@.take(i as int), '\n'),
        decreases n - i,
    {
        let ghost before = pieces@.map_values(|l: Vec<char>| l@);
        proof {
            assert(cs@.take(i + 1).drop_last() =~= cs@.take(i as int));
            assert(cs@.take(i + 1).last() == cs@[i as int]);
        }
        let c = cs[i];
        if c == '\n' {
            pieces.push(Vec::new());
            proof {
                assert(pieces@.map_values(|l: Vec<char>| l@) =~= before.push(Seq::empty()));
            }
        } else {
            let last = pieces.len() - 1;
            let mut piece = pieces.pop().unwrap();
            piece.push(c);
            pieces.push(piece);
            proof {
                assert(pieces@.map_values(|l: Vec<char>| l@) =~= before.update(
                    before.len() - 1,
                    before.last().push(c),
                ));
            }
        }
        i = i + 1;
    }
    proof {
        assert(cs@.take(n as int) =~= cs@);
    }
    let terminated = cs[n - 1] == '\n';
    if terminated {
        pieces.pop();
    }
    let ghost q = pieces@.map_values(|l: Vec<char>| l@);
    let m = pieces.len();
    let mut r: Vec<Vec<char>> = Vec::new();
    let mut j: usize = 0;
    while j < m
        invariant
            m == pieces@.len(),
            q == pieces@.map_values(|l: Vec<char>| l@),
            j <= m,
            r@.len() == j,
            forall|k: int|
                0 <= k < j ==> #[trigger] r@[k]@ == (if k < m - 1 || terminated {
                    strip_cr(q[k])
                } else {
                    q[k]
                }),
        decreases m - j,
    {
        let mut piece = pieces[j].clone();
        let strip = (j + 1 < m || terminated) && piece.len() > 0 && piece[piece.len() - 1] == '\r';
        if strip {
            piece.pop();
        }
        proof {
            assert(piece@ == pieces@[j as int]@ || piece@ == pieces@[j as int]@.drop_last());
        }
        r.push(piece);
        j = j + 1;
    }
    proof {
        assert(r@.map_values(|l: Vec<char>| l@) =~= lines_spec(s@));
    }
    r
}

/// The lines joined with `\n` between them.
pub fn join_lines(ls: &Vec<Vec<char>>, lo: usize) -> (r: String)
    requires
        lo <= ls@.len(),
    ensures
        r@ == join_spec(ls@.map_values(|l: Vec<char>| l@).skip(lo as int), "\n"@),
{
    let ghost all = ls@.map_values(|l: Vec<char>| l@).skip(lo as int);
    let mut r = String::new();
    let mut j: usize = lo;
    proof {
        assert(all.take(0) =~= Seq::<Seq<char>>::empty());
    }
    while j < ls.len()
        invariant
            lo <= j <= ls@.len(),
            all == ls@.map_values(|l: Vec<char>| l@).skip(lo as int),
            r@ == join_spec(all.take(j - lo), "\n"@),
        decreases ls@.len() - j,
    {
        proof {
            reveal_strlit("\n");
            assert(all.take(j - lo + 1).drop_last() =~= all.take(j - lo));
            assert(all.take(j - lo + 1).last() == ls@[j as int]@);
        }
        if j > lo {
            push_char(&mut r, '\n');
        }
        let piece = string_from_range(&ls[j], 0, ls[j].len());
        proof {
            assert(ls@[j as int]@.subrange(0, ls@[j as int]@.len() as int) =~= ls@[j as int]@);
        }
        let ghost before = r@;
        push_str(&mut r, piece.as_str());
        proof {
            if j > lo {
                assert(r@ =~= join_spec(all.take(j - lo), "\n"@) + "\n"@ + ls@[j as int]@);
            } else {
                assert(all.take(1) =~= seq![ls@[j as int]@]);
            }
        }
        j = j + 1;
    }
    proof {
        assert(all.take(ls@.len() - lo) =~= all);
    }
    r
}

} // verus!

verus! {

/// The first position at or after `i` where the nonempty run `pat` occurs
/// in `s`.
pub open spec fn find_run_from(s: Seq<char>, pat: Seq<char>, i: int) -> Option<int>
    decreases s.len() - i,
{
    if pat.len() == 0 || i < 0 || i + pat.len() > s.len() {
        None
    } else if s.subrange(i, i + pat.len()) == pat {
        Some(i)
    } else {
        find_run_from(s, pat, i + 1)
    }
}

pub proof fn lemma_find_run_from(s: Seq<char>, pat: Seq<char>, i: int)
    ensures
        find_run_from(s, pat, i) matches Some(k) ==> i <= k && k + pat.len() <= s.len()
            && s.subrange(k, k + pat.len()) == pat,
    decreases s.len() - i,
{
    if !(pat.len() == 0 || i < 0 || i + pat.len() > s.len()) && s.subrange(i, i + pat.len())
        != pat {
        lemma_find_run_from(s, pat, i + 1);
    }
}

/// The first position at or after `from` where `pat` occurs in `cs`.
pub fn find_run(cs: &Vec<char>, pat: &Vec<char>, from: usize) -> (r: Option<usize>)
    requires
        pat@.len() > 0,
        from <= cs@.len(),
    ensures
        r matches Some(k) ==> find_run_from(cs@, pat@, from as int) == Some(k as int),
        r is None ==> find_run_from(cs@, pat@, from as int) is None,
{
    let mut i: usize = from;
    while pat.len() <= cs.len() - i
        invariant
            from <= i <= cs@.len(),
            pat@.len() > 0,
            find_run_from(cs@, pat@, from as int) == find_run_from(cs@, pat@, i as int),
        decreases cs@.len() - i,
    {
        if occurs_at(cs, pat, i) {
            return Some(i);
        }
        i = i + 1;
    }
    None
}

} // verus!

verus! {

/// The strings joined with `sep` between them.
pub fn join_strings(words: &Vec<String>, sep: &str) -> (r: String)
    ensures
        r@ == join_spec(words@.map_values(|s: String| s@), sep@),
{
    let ghost ws = words@.map_values(|s: String| s@);
    let mut r = String::new();
    let mut i: usize = 0;
    proof {
        assert(ws.take(0) =~= Seq::<Seq<char>>::empty());
    }
    while i < words.len()
        invariant
            i <= words@.len(),
            ws == words@.map_values(|s: String| s@),
            r@ == join_spec(ws.take(i as int), sep@),
        decreases words@.len() - i,
    {
        proof {
            assert(ws.take(i + 1).drop_last() =~= ws.take(i as int));
        }
        if i > 0 {
            push_str(&mut r, sep);
        }
        push_str(&mut r, words[i].as_str());
        proof {
            if i == 0 {
                assert(ws.take(1) =~= seq![ws[0]]);
                assert(r@ =~= ws[0]);
            } else {
                assert(r@ =~= join_spec(ws.take(i as int), sep@) + sep@ + ws[i as int]);
            }
        }
        i = i + 1;
    }
    proof {
        assert(ws.take(words@.len() as int) =~= ws);
    }
    r
}

} // verus!

verus! {

/// The pieces of `s` cut at `c`, joined again with `c`, give back `s`.
pub proof fn lemma_join_split_on(s: Seq<char>, c: char)
    ensures
        join_spec(split_on(s, c), seq![c]) == s,
    decreases s.len(),
{
    lemma_split_on_len(s, c);
    if s.len() == 0 {
        assert(join_spec(split_on(s, c), seq![c]) =~= s);
    } else {
        let t = s.drop_last();
        let x = s.last();
        lemma_join_split_on(t, c);
        lemma_split_on_len(t, c);
        let p = split_on(t, c);
        if x == c {
            assert(split_on(s, c).drop_last() =~= p);
            assert(join_spec(split_on(s, c), seq![c]) =~= s);
        } else {
            let q = p.update(p.len() - 1, p.last().push(x));
            assert(split_on(s, c) == q);
            if p.len() == 1 {
                assert(join_spec(q, seq![c]) =~= s);
            } else {
                assert(q.drop_last() =~= p.drop_last());
                assert(q.last() == p.last().push(x));
                assert(join_spec(q, seq![c]) == join_spec(p.drop_last(), seq![c]) + seq![c] + p.last().push(x));
                assert(join_spec(p, seq![c]) == join_spec(p.drop_last(), seq![c]) + seq![c] + p.last());
                assert(join_spec(q, seq![c]) =~= t.push(x));
                assert(t.push(x) =~= s);
            }
        }
    }
}

/// Every character of a piece of `s` cut at `c` is a character of `s`
/// other than `c`.
pub proof fn lemma_split_on_chars(s: Seq<char>, c: char)
    ensures
        forall|i: int, j: int|
            0 <= i < split_on(s, c).len() && 0 <= j < split_on(s, c)[i].len() ==> #[trigger] split_on(
                s,
                c,
            )[i][j] != c && s.contains(split_on(s, c)[i][j]),
    decreases s.len(),
{
    lemma_split_on_len(s, c);
    if s.len() > 0 {
        let t = s.drop_last();
        lemma_split_on_chars(t, c);
        lemma_split_on_len(t, c);
        let p = split_on(t, c);
        assert forall|i: int, j: int|
            0 <= i < split_on(s, c).len() && 0 <= j < split_on(s, c)[i].len() implies #[trigger] split_on(
                s,
                c,
            )[i][j] != c && s.contains(split_on(s, c)[i][j]) by {
            if s.last() == c {
                if i < p.len() {
                    assert(split_on(s, c)[i] == p[i]);
                    let k = choose|k: int| 0 <= k < t.len() && t[k] == p[i][j];
                    assert(s[k] == t[k]);
                }
            } else {
                if i < p.len() - 1 {
                    assert(split_on(s, c)[i] == p[i]);
                    let k = choose|k: int| 0 <= k < t.len() && t[k] == p[i][j];
                    assert(s[k] == t[k]);
                } else if j < p.last().len() {
                    assert(split_on(s, c)[i][j] == p[i][j]);
                    let k = choose|k: int| 0 <= k < t.len() && t[k] == p[i][j];
                    assert(s[k] == t[k]);
                } else {
                    assert(split_on(s, c)[i][j] == s.last());
                    assert(s[s.len() - 1] == s.last());
                }
            }
        }
    }
}

/// Where `s` holds no `c` before position `k`, and a `c` at `k` if `k` is
/// inside `s`, the first piece of `s` cut at `c` is `s` up to `k`.
pub proof fn lemma_split_on_first(s: Seq<char>, c: char, k: int)
    requires
        0 <= k <= s.len(),
        forall|j: int| 0 <= j < k ==> s[j] != c,
        k < s.len() ==> s[k] == c,
    ensures
        split_on(s, c)[0] == s.take(k),
        k < s.len() ==> split_on(s, c).len() >= 2,
        k == s.len() ==> split_on(s, c).len() == 1,
    decreases s.len(),
{
    lemma_split_on_len(s, c);
    if s.len() > 0 {
        let t = s.drop_last();
        lemma_split_on_len(t, c);
        let p = split_on(t, c);
        if t.len() >= k {
            lemma_split_on_first(t, c, k);
            assert(t.take(k) =~= s.take(k));
            if s.last() == c {
                assert(split_on(s, c) == p.push(Seq::empty()));
                assert(split_on(s, c)[0] == p[0]);
            } else {
                assert(k < t.len()) by {
                    if k == t.len() {
                        assert(s[k] == s.last());
                    }
                }
                assert(split_on(s, c) == p.update(p.len() - 1, p.last().push(s.last())));
                assert(split_on(s, c)[0] == p[0]);
            }
        } else {
            lemma_split_on_first(t, c, t.len() as int);
            assert(t.take(t.len() as int) =~= t);
            assert(s[s.len() - 1] != c);
            assert(s.last() != c);
            assert(split_on(s, c) == p.update(0, p[0].push(s.last())));
            assert(s.take(k) =~= t.push(s.last()));
        }
    } else {
        assert(s.take(k) =~= Seq::<char>::empty());
    }
}

/// The lines of a text without carriage returns, joined with line feeds,
/// give back the text without its final line feed.
pub proof fn lemma_join_lines(s: Seq<char>)
    requires
        forall|j: int| 0 <= j < s.len() ==> s[j] != '\r',
    ensures
        join_spec(lines_spec(s), "\n"@) == if s.len() > 0 && s.last() == '\n' {
            s.drop_last()
        } else {
            s
        },
{
    reveal_strlit("\n");
    assert("\n"@ =~= seq!['\n']);
    if s.len() == 0 {
        assert(join_spec(lines_spec(s), "\n"@) =~= s);
    } else {
        let p = split_on(s, '\n');
        lemma_split_on_len(s, '\n');
        lemma_split_on_chars(s, '\n');
        lemma_join_split_on(s, '\n');
        let terminated = s.last() == '\n';
        let q = if terminated {
            p.drop_last()
        } else {
            p
        };
        assert forall|i: int| 0 <= i < q.len() implies strip_cr(#[trigger] q[i]) == q[i] by {
            assert(q[i] == p[i]);
            if q[i].len() > 0 {
                let j = q[i].len() - 1;
                assert(p[i][j] != '\r') by {
                    assert(s.contains(p[i][j]));
                }
            }
        }
        assert(lines_spec(s) =~= q);
        if terminated {
            let t = s.drop_last();
            lemma_join_split_on(t, '\n');
            lemma_split_on_len(t, '\n');
            assert(p.drop_last() =~= split_on(t, '\n'));
        }
    }
}

/// Whitespace around a text does not change it once trimmed.
pub proof fn lemma_trim_surrounded(u: Seq<char>, x: Seq<char>, v: Seq<char>)
    requires
        forall|i: int| 0 <= i < u.len() ==> is_whitespace_spec(#[trigger] u[i]),
        forall|i: int| 0 <= i < v.len() ==> is_whitespace_spec(#[trigger] v[i]),
    ensures
        trim_spec(u + x + v) == trim_spec(x),
{
    let a = u + x + v;
    lemma_leading_ws(x);
    let l = leading_ws(x) as int;
    if l == x.len() {
        assert forall|i: int| 0 <= i < a.len() implies is_whitespace_spec(#[trigger] a[i]) by {
            if i < u.len() {
                assert(a[i] == u[i]);
            } else if i < u.len() + x.len() {
                assert(a[i] == x[i - u.len()]);
            } else {
                assert(a[i] == v[i - u.len() - x.len()]);
            }
        }
        lemma_leading_ws_unique(a, a.len() as int);
        lemma_trailing_ws_unique(Seq::<char>::empty(), 0);
        assert(trim_start_spec(a) =~= Seq::<char>::empty());
        assert(trim_start_spec(x) =~= Seq::<char>::empty());
        assert(trim_spec(a) =~= trim_spec(x));
    } else {
        assert forall|i: int| 0 <= i < u.len() + l implies is_whitespace_spec(#[trigger] a[i]) by {
            if i < u.len() {
                assert(a[i] == u[i]);
            } else {
                assert(a[i] == x[i - u.len()]);
            }
        }
        assert(a[u.len() + l] == x[l]);
        lemma_leading_ws_unique(a, u.len() + l);
        let y = x.subrange(l, x.len() as int);
        assert(trim_start_spec(a) =~= y + v);
        assert(trim_start_spec(x) =~= y);
        lemma_trailing_ws(y);
        let tr = trailing_ws(y) as int;
        assert(tr < y.len()) by {
            if tr == y.len() {
                assert(y[0] == x[l]);
                assert(is_whitespace_spec(y[0]));
            }
        }
        let yv = y + v;
        assert forall|i: int| yv.len() - (v.len() + tr) <= i < yv.len() implies is_whitespace_spec(
            #[trigger] yv[i],
        ) by {
            if i < y.len() {
                assert(yv[i] == y[i]);
            } else {
                assert(yv[i] == v[i - y.len()]);
            }
        }
        assert(yv[yv.len() - (v.len() + tr) - 1] == y[y.len() - tr - 1]);
        lemma_trailing_ws_unique(yv, v.len() + tr);
        assert(trim_end_spec(yv) =~= trim_end_spec(y));
    }
}

} // verus!
