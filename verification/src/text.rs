//! Character-level text helpers with their mathematical meaning over `Seq<char>`.
use vstd::prelude::*;
use vstd::string::*;

verus! {

/// The Unicode `White_Space` property, which is what `char::is_whitespace` tests.
pub open spec fn is_whitespace(c: char) -> bool {
    let n = c as u32;
    ||| (0x09 <= n && n <= 0x0d)
    ||| n == 0x20
    ||| n == 0x85
    ||| n == 0xa0
    ||| n == 0x1680
    ||| (0x2000 <= n && n <= 0x200a)
    ||| n == 0x2028
    ||| n == 0x2029
    ||| n == 0x202f
    ||| n == 0x205f
    ||| n == 0x3000
}

/// `s` without its leading white space.
pub open spec fn trim_start_seq(s: Seq<char>) -> Seq<char>
    decreases s.len(),
{
    if s.len() > 0 && is_whitespace(s[0]) {
        trim_start_seq(s.drop_first())
    } else {
        s
    }
}

/// `s` without its trailing white space.
pub open spec fn trim_end_seq(s: Seq<char>) -> Seq<char>
    decreases s.len(),
{
    if s.len() > 0 && is_whitespace(s.last()) {
        trim_end_seq(s.drop_last())
    } else {
        s
    }
}

/// `s` without leading and trailing white space, as `str::trim` gives it.
pub open spec fn trim_seq(s: Seq<char>) -> Seq<char> {
    trim_end_seq(trim_start_seq(s))
}

proof fn lemma_trim_start_clean(s: Seq<char>)
    ensures
        trim_start_seq(s).len() == 0 || !is_whitespace(trim_start_seq(s)[0]),
    decreases s.len(),
{
    if s.len() > 0 && is_whitespace(s[0]) {
        lemma_trim_start_clean(s.drop_first());
    }
}

proof fn lemma_trim_end_clean(s: Seq<char>)
    ensures
        trim_end_seq(s).len() == 0 || !is_whitespace(trim_end_seq(s).last()),
    decreases s.len(),
{
    if s.len() > 0 && is_whitespace(s.last()) {
        lemma_trim_end_clean(s.drop_last());
    }
}

proof fn lemma_trim_end_keeps_first(s: Seq<char>)
    requires
        s.len() > 0,
        !is_whitespace(s[0]),
    ensures
        trim_end_seq(s).len() == 0 || trim_end_seq(s)[0] == s[0],
    decreases s.len(),
{
    if is_whitespace(s.last()) && s.drop_last().len() > 0 {
        lemma_trim_end_keeps_first(s.drop_last());
    }
}

/// Trimming text that was trimmed already changes nothing.
pub proof fn law_trim_idempotent(s: Seq<char>)
    ensures
        trim_seq(trim_seq(s)) == trim_seq(s),
{
    let a = trim_start_seq(s);
    let t = trim_end_seq(a);
    lemma_trim_start_clean(s);
    lemma_trim_end_clean(a);
    if a.len() > 0 {
        lemma_trim_end_keeps_first(a);
    }
    assert(trim_start_seq(t) == t);
    assert(trim_end_seq(t) == t);
}

/// `needle` occurs in `hay` at position `i`.
pub open spec fn occurs_at(hay: Seq<char>, needle: Seq<char>, i: int) -> bool {
    &&& 0 <= i
    &&& i + needle.len() <= hay.len()
    &&& hay.subrange(i, i + needle.len()) == needle
}

/// `needle` occurs somewhere in `hay`.
pub open spec fn contains_seq(hay: Seq<char>, needle: Seq<char>) -> bool {
    exists|i: int| occurs_at(hay, needle, i)
}

/// `s` with every occurrence of the non-empty `pat` removed, scanning left to right
/// and skipping over each match, as `str::replace(pat, "")` does.
pub open spec fn remove_all_seq(s: Seq<char>, pat: Seq<char>) -> Seq<char>
    decreases s.len(),
{
    if pat.len() == 0 || s.len() < pat.len() {
        s
    } else if s.subrange(0, pat.len() as int) == pat {
        remove_all_seq(s.subrange(pat.len() as int, s.len() as int), pat)
    } else {
        seq![s[0]] + remove_all_seq(s.drop_first(), pat)
    }
}

/// Removing `pat` from text in which it does not occur leaves the text as it is.
pub proof fn lemma_remove_absent(s: Seq<char>, pat: Seq<char>)
    requires
        !contains_seq(s, pat),
    ensures
        remove_all_seq(s, pat) == s,
    decreases s.len(),
{
    assert(occurs_at(s, pat, 0) ==> contains_seq(s, pat));
    if pat.len() == 0 || s.len() < pat.len() {
    } else {
        let t = s.drop_first();
        assert forall|i: int| !occurs_at(t, pat, i) by {
            if occurs_at(t, pat, i) {
                assert(t.subrange(i, i + pat.len()) =~= s.subrange(i + 1, i + 1 + pat.len()));
                assert(occurs_at(s, pat, i + 1));
            }
        }
        lemma_remove_absent(t, pat);
        assert(s =~= seq![s[0]] + t);
    }
}

/// Before text that starts with `pat`, a prefix holding no occurrence of `pat` is kept
/// whole, when no occurrence of `pat` can begin inside the prefix and end inside the
/// following `pat` (its first character occurs nowhere else in it).
pub proof fn lemma_remove_keeps_clean_prefix(a: Seq<char>, pat: Seq<char>, rest: Seq<char>)
    requires
        pat.len() > 0,
        !contains_seq(a, pat),
        forall|k: int| 0 < k < pat.len() ==> #[trigger] pat[k] != pat[0],
        rest.len() >= pat.len(),
        rest.subrange(0, pat.len() as int) == pat,
    ensures
        remove_all_seq(a + rest, pat) == a + remove_all_seq(rest, pat),
    decreases a.len(),
{
    let s = a + rest;
    if a.len() == 0 {
        assert(s =~= rest);
        assert(a + remove_all_seq(rest, pat) =~= remove_all_seq(rest, pat));
    } else {
        if s.subrange(0, pat.len() as int) == pat {
            if pat.len() <= a.len() {
                assert(a.subrange(0, pat.len() as int) =~= s.subrange(0, pat.len() as int));
                assert(occurs_at(a, pat, 0));
            } else {
                let k = a.len() as int;
                assert(s[k] == s.subrange(0, pat.len() as int)[k]);
                assert(s[k] == rest[0]);
                assert(rest[0] == rest.subrange(0, pat.len() as int)[0]);
                assert(pat[k] == pat[0]);
            }
        }
        let t = a.drop_first();
        assert forall|i: int| !occurs_at(t, pat, i) by {
            if occurs_at(t, pat, i) {
                assert(t.subrange(i, i + pat.len()) =~= a.subrange(i + 1, i + 1 + pat.len()));
                assert(occurs_at(a, pat, i + 1));
            }
        }
        lemma_remove_keeps_clean_prefix(t, pat, rest);
        assert(s.drop_first() =~= t + rest);
        assert(a =~= seq![a[0]] + t);
        assert(a + remove_all_seq(rest, pat) =~= seq![a[0]] + (t + remove_all_seq(rest, pat)));
    }
}

/// The ASCII lower-case form of a character.
pub open spec fn ascii_lower(c: char) -> char {
    if 'A' <= c && c <= 'Z' {
        ((c as u32) + 32) as char
    } else {
        c
    }
}

/// The ASCII lower-case form of a text, as `str::to_ascii_lowercase` gives it.
pub open spec fn ascii_lower_seq(s: Seq<char>) -> Seq<char> {
    s.map_values(|c: char| ascii_lower(c))
}

/// The characters of `s`.
pub fn chars_of(s: &str) -> (v: Vec<char>)
    ensures
        v@ == s@,
{
    let n = s.unicode_len();
    let mut v: Vec<char> = Vec::new();
    let mut i: usize = 0;
    while i < n
        invariant
            n == s@.len(),
            i <= n,
            v@ == s@.subrange(0, i as int),
        decreases n - i,
    {
        let c = s.get_char(i);
        v.push(c);
        i = i + 1;
        assert(v@ =~= s@.subrange(0, i as int));
    }
    assert(v@ =~= s@);
    v
}

proof fn lemma_trim_start_skip(s: Seq<char>, i: int)
    requires
        0 <= i < s.len(),
        is_whitespace(s[i]),
    ensures
        trim_start_seq(s.subrange(i, s.len() as int)) == trim_start_seq(
            s.subrange(i + 1, s.len() as int),
        ),
{
    let t = s.subrange(i, s.len() as int);
    assert(t.drop_first() =~= s.subrange(i + 1, s.len() as int));
}

proof fn lemma_trim_end_skip(s: Seq<char>, j: int)
    requires
        0 < j <= s.len(),
        is_whitespace(s[j - 1]),
    ensures
        trim_end_seq(s.subrange(0, j)) == trim_end_seq(s.subrange(0, j - 1)),
{
    let t = s.subrange(0, j);
    assert(t.drop_last() =~= s.subrange(0, j - 1));
}

/// `s` with leading and trailing white space removed.
pub fn trim(s: &str) -> (r: String)
    ensures
        r@ == trim_seq(s@),
{
    let n = s.unicode_len();
    let mut lo: usize = 0;
    assert(s@.subrange(0, n as int) =~= s@);
    while lo < n && is_whitespace_char(s.get_char(lo))
        invariant
            n == s@.len(),
            lo <= n,
            trim_start_seq(s@) == trim_start_seq(s@.subrange(lo as int, n as int)),
        decreases n - lo,
    {
        proof {
            lemma_trim_start_skip(s@, lo as int);
        }
        lo = lo + 1;
    }
    proof {
        let t = s@.subrange(lo as int, n as int);
        if lo < n {
            assert(t[0] == s@[lo as int]);
        }
        assert(trim_start_seq(t) == t);
    }
    let mut hi: usize = n;
    while hi > lo && is_whitespace_char(s.get_char(hi - 1))
        invariant
            n == s@.len(),
            lo <= hi <= n,
            trim_seq(s@) == trim_end_seq(s@.subrange(lo as int, hi as int)),
        decreases hi,
    {
        proof {
            let t = s@.subrange(lo as int, n as int);
            let u = s@.subrange(lo as int, hi as int);
            assert(u =~= t.subrange(0, (hi - lo) as int));
            assert(s@.subrange(lo as int, hi - 1) =~= t.subrange(0, (hi - lo - 1) as int));
            lemma_trim_end_skip(t, (hi - lo) as int);
        }
        hi = hi - 1;
    }
    proof {
        let u = s@.subrange(lo as int, hi as int);
        if hi > lo {
            assert(u.last() == s@[hi - 1]);
        }
        assert(trim_end_seq(u) == u);
    }
    let sub = s.substring_char(lo, hi);
    String::from_str(sub)
}

/// Whether `c` is white space in the sense of [`is_whitespace`].
pub fn is_whitespace_char(c: char) -> (b: bool)
    ensures
        b == is_whitespace(c),
{
    let n = c as u32;
    (0x09 <= n && n <= 0x0d) || n == 0x20 || n == 0x85 || n == 0xa0 || n == 0x1680 || (0x2000
        <= n && n <= 0x200a) || n == 0x2028 || n == 0x2029 || n == 0x202f || n == 0x205f || n
        == 0x3000
}

/// Whether `needle` occurs in `hay` at position `i`.
fn occurs_at_exec(hay: &Vec<char>, needle: &Vec<char>, i: usize) -> (b: bool)
    requires
        i + needle@.len() <= hay@.len(),
    ensures
        b == occurs_at(hay@, needle@, i as int),
{
    let m = needle.len();
    let hl = hay.len();
    let mut j: usize = 0;
    while j < m
        invariant
            m == needle@.len(),
            hl == hay@.len(),
            i + m <= hl,
            j <= m,
            forall|k: int| 0 <= k < j ==> hay@[i + k] == needle@[k],
        decreases m - j,
    {
        if hay[i + j] != needle[j] {
            proof {
                assert(hay@.subrange(i as int, i + m)[j as int] != needle@[j as int]);
            }
            return false;
        }
        j = j + 1;
    }
    assert(hay@.subrange(i as int, i + m) =~= needle@);
    true
}

/// Whether `needle` occurs in `hay`, as `str::contains` with a text pattern decides.
pub fn contains(hay: &str, needle: &str) -> (b: bool)
    ensures
        b == contains_seq(hay@, needle@),
{
    let h = chars_of(hay);
    let p = chars_of(needle);
    contains_chars(&h, &p)
}

/// Whether `needle` occurs in `hay`, both given as characters.
pub fn contains_chars(h: &Vec<char>, p: &Vec<char>) -> (b: bool)
    ensures
        b == contains_seq(h@, p@),
{
    if p.len() > h.len() {
        assert forall|i: int| !occurs_at(h@, p@, i) by {}
        return false;
    }
    if p.len() == 0 {
        assert(h@.subrange(0, 0) =~= p@);
        assert(occurs_at(h@, p@, 0));
        return true;
    }
    let hl = h.len();
    let last = hl - p.len();
    let mut i: usize = 0;
    while i <= last
        invariant
            last + p@.len() == h@.len(),
            hl == h@.len(),
            last < hl,
            i <= last + 1,
            forall|k: int| 0 <= k < i ==> !occurs_at(h@, p@, k),
        decreases last + 1 - i,
    {
        if occurs_at_exec(h, p, i) {
            return true;
        }
        i = i + 1;
    }
    assert forall|k: int| !occurs_at(h@, p@, k) by {
        if 0 <= k && k < i {
        }
    }
    false
}

/// `s` with every occurrence of the non-empty `pat` removed, as `str::replace(pat, "")`.
pub fn remove_all(s: &str, pat: &str) -> (r: String)
    ensures
        r@ == remove_all_seq(s@, pat@),
{
    let h = chars_of(s);
    let p = chars_of(pat);
    let n = h.len();
    let m = p.len();
    let mut out = String::new();
    if m == 0 || n < m {
        return String::from_str(s);
    }
    let mut i: usize = 0;
    assert(s@.subrange(0, n as int) =~= s@);
    assert(out@ + s@ =~= s@);
    while i < n
        invariant
            n == s@.len(),
            h@ == s@,
            p@ == pat@,
            m == pat@.len(),
            0 < m,
            i <= n,
            remove_all_seq(s@, pat@) == out@ + remove_all_seq(s@.subrange(i as int, n as int), pat@),
        decreases n - i,
    {
        let t = Ghost(s@.subrange(i as int, n as int));
        if m <= n - i && occurs_at_exec(&h, &p, i) {
            proof {
                assert(t@.subrange(0, m as int) =~= s@.subrange(i as int, i + m));
                assert(t@.subrange(m as int, t@.len() as int) =~= s@.subrange(i + m, n as int));
            }
            i = i + m;
        } else {
            proof {
                if t@.len() >= m {
                    assert(t@.subrange(0, m as int) =~= s@.subrange(i as int, i + m));
                }
                assert(t@.drop_first() =~= s@.subrange(i + 1, n as int));
            }
            let c = s.substring_char(i, i + 1);
            proof {
                assert(c@ =~= seq![t@[0]]);
            }
            let ghost before = out@;
            out.append(c);
            proof {
                if t@.len() < m {
                    // the tail is kept whole; peel its first character off
                    assert(remove_all_seq(t@, pat@) == t@);
                    assert(remove_all_seq(t@.drop_first(), pat@) == t@.drop_first());
                    assert(t@ =~= seq![t@[0]] + t@.drop_first());
                }
                assert(before + (seq![t@[0]] + remove_all_seq(t@.drop_first(), pat@))
                    =~= out@ + remove_all_seq(t@.drop_first(), pat@));
            }
            i = i + 1;
        }
    }
    proof {
        assert(s@.subrange(n as int, n as int) =~= Seq::<char>::empty());
        assert(out@ + Seq::<char>::empty() =~= out@);
    }
    out
}

/// The ASCII lower-case form of `c`.
pub fn ascii_lower_char(c: char) -> (r: char)
    ensures
        r == ascii_lower(c),
{
    if 'A' <= c && c <= 'Z' {
        let b = c as u8;
        assert(b as u32 == c as u32);
        ((b + 32) as char)
    } else {
        c
    }
}

/// Whether `needle` occurs in the ASCII lower-case form of `hay`.
pub fn contains_in_ascii_lowercase(hay: &str, needle: &str) -> (b: bool)
    ensures
        b == contains_seq(ascii_lower_seq(hay@), needle@),
{
    let h = chars_of(hay);
    let mut lowered: Vec<char> = Vec::new();
    let n = h.len();
    let mut i: usize = 0;
    while i < n
        invariant
            n == h@.len(),
            h@ == hay@,
            i <= n,
            lowered@ =~= ascii_lower_seq(hay@).subrange(0, i as int),
        decreases n - i,
    {
        let c = ascii_lower_char(h[i]);
        lowered.push(c);
        i = i + 1;
    }
    assert(lowered@ =~= ascii_lower_seq(hay@));
    let p = chars_of(needle);
    contains_chars(&lowered, &p)
}

} // verus!

verus! {

/// `s` begins with `p`.
pub open spec fn starts_with_seq(s: Seq<char>, p: Seq<char>) -> bool {
    p.len() <= s.len() && s.subrange(0, p.len() as int) == p
}

/// Whether `a` and `b` are the same text.
pub fn same_text(a: &str, b: &str) -> (r: bool)
    ensures
        r == (a@ == b@),
{
    let x = chars_of(a);
    let y = chars_of(b);
    if x.len() != y.len() {
        return false;
    }
    let n = x.len();
    let mut i: usize = 0;
    while i < n
        invariant
            n == x@.len(),
            n == y@.len(),
            x@ == a@,
            y@ == b@,
            i <= n,
            forall|k: int| 0 <= k < i ==> x@[k] == y@[k],
        decreases n - i,
    {
        if x[i] != y[i] {
            return false;
        }
        i = i + 1;
    }
    assert(x@ =~= y@);
    true
}

/// Whether `s` begins with `p`.
pub fn starts_with(s: &str, p: &str) -> (r: bool)
    ensures
        r == starts_with_seq(s@, p@),
{
    let x = chars_of(s);
    let y = chars_of(p);
    if y.len() > x.len() {
        return false;
    }
    let n = y.len();
    let mut i: usize = 0;
    while i < n
        invariant
            n == y@.len(),
            n <= x@.len(),
            x@ == s@,
            y@ == p@,
            i <= n,
            forall|k: int| 0 <= k < i ==> x@[k] == y@[k],
        decreases n - i,
    {
        if x[i] != y[i] {
            assert(x@.subrange(0, n as int)[i as int] != y@[i as int]);
            return false;
        }
        i = i + 1;
    }
    assert(x@.subrange(0, n as int) =~= y@);
    true
}

} // verus!

verus! {

/// The decimal digit for `d < 10`.
pub open spec fn digit_char(d: nat) -> char {
    "0123456789"@[d as int]
}

/// The decimal notation of `n`, without leading zeros.
pub open spec fn decimal(n: nat) -> Seq<char>
    decreases n,
{
    if n < 10 {
        seq![digit_char(n)]
    } else {
        decimal(n / 10) + seq![digit_char(n % 10)]
    }
}

/// The decimal notation of `n`.
pub fn decimal_text(n: u64) -> (r: String)
    ensures
        r@ == decimal(n as nat),
    decreases n,
{
    let digits = "0123456789";
    proof {
        reveal_strlit("0123456789");
    }
    if n < 10 {
        let d = n as usize;
        let s = digits.substring_char(d, d + 1);
        assert(s@ =~= seq![digit_char(n as nat)]);
        String::from_str(s)
    } else {
        let mut head = decimal_text(n / 10);
        let d = (n % 10) as usize;
        let s = digits.substring_char(d, d + 1);
        assert(s@ =~= seq![digit_char((n % 10) as nat)]);
        head.append(s);
        head
    }
}

/// `a` followed by `b`.
pub fn join2(a: &str, b: &str) -> (r: String)
    ensures
        r@ == a@ + b@,
{
    let mut s = String::from_str(a);
    s.append(b);
    s
}

/// `a`, `b` and `c` one after the other.
pub fn join3(a: &str, b: &str, c: &str) -> (r: String)
    ensures
        r@ == a@ + b@ + c@,
{
    let mut s = String::from_str(a);
    s.append(b);
    s.append(c);
    s
}

/// `a` to `e` one after the other.
pub fn join5(a: &str, b: &str, c: &str, d: &str, e: &str) -> (r: String)
    ensures
        r@ == a@ + b@ + c@ + d@ + e@,
{
    let mut s = String::from_str(a);
    s.append(b);
    s.append(c);
    s.append(d);
    s.append(e);
    s
}

} // verus!

verus! {

/// `s` without the leading characters equal to `c`.
pub open spec fn strip_leading_char(s: Seq<char>, c: char) -> Seq<char>
    decreases s.len(),
{
    if s.len() > 0 && s[0] == c {
        strip_leading_char(s.drop_first(), c)
    } else {
        s
    }
}

/// `s` without any number of trailing copies of the non-empty `p`.
pub open spec fn strip_trailing_seq(s: Seq<char>, p: Seq<char>) -> Seq<char>
    decreases s.len(),
{
    if p.len() > 0 && p.len() <= s.len() && s.subrange(s.len() - p.len(), s.len() as int) == p {
        strip_trailing_seq(s.subrange(0, s.len() - p.len()), p)
    } else {
        s
    }
}

/// `s` without leading `c`, as `str::trim_start_matches` with a character.
pub fn trim_start_char(s: &str, c: char) -> (r: String)
    ensures
        r@ == strip_leading_char(s@, c),
{
    let n = s.unicode_len();
    let mut lo: usize = 0;
    assert(s@.subrange(0, n as int) =~= s@);
    while lo < n && s.get_char(lo) == c
        invariant
            n == s@.len(),
            lo <= n,
            strip_leading_char(s@, c) == strip_leading_char(s@.subrange(lo as int, n as int), c),
        decreases n - lo,
    {
        proof {
            let t = s@.subrange(lo as int, n as int);
            assert(t.drop_first() =~= s@.subrange(lo + 1, n as int));
        }
        lo = lo + 1;
    }
    proof {
        let t = s@.subrange(lo as int, n as int);
        if lo < n {
            assert(t[0] == s@[lo as int]);
        }
    }
    String::from_str(s.substring_char(lo, n))
}

/// `s` without trailing copies of `p`, as `str::trim_end_matches` with a text.
pub fn trim_end_text(s: &str, p: &str) -> (r: String)
    ensures
        r@ == strip_trailing_seq(s@, p@),
{
    let x = chars_of(s);
    let y = chars_of(p);
    let m = y.len();
    let mut hi: usize = x.len();
    assert(s@.subrange(0, hi as int) =~= s@);
    if m == 0 {
        return String::from_str(s);
    }
    loop
        invariant
            x@ == s@,
            y@ == p@,
            m == p@.len(),
            m > 0,
            hi <= x@.len(),
            strip_trailing_seq(s@, p@) == strip_trailing_seq(s@.subrange(0, hi as int), p@),
        ensures
            strip_trailing_seq(s@, p@) == s@.subrange(0, hi as int),
        decreases hi,
    {
        if m > hi {
            break;
        }
        let start = hi - m;
        let mut j: usize = 0;
        let mut same = true;
        while j < m
            invariant
                x@ == s@,
                y@ == p@,
                m == p@.len(),
                start + m == hi,
                hi <= x@.len(),
                j <= m,
                same == (forall|k: int| 0 <= k < j ==> x@[start + k] == y@[k]),
            decreases m - j,
        {
            if x[start + j] != y[j] {
                same = false;
            }
            j = j + 1;
        }
        let ghost t = s@.subrange(0, hi as int);
        proof {
            if same {
                assert(t.subrange(t.len() - m, t.len() as int) =~= p@);
                assert(t.subrange(0, t.len() - m) =~= s@.subrange(0, start as int));
            } else {
                let k = choose|k: int| 0 <= k < m && x@[start + k] != y@[k];
                assert(t.subrange(t.len() - m, t.len() as int)[k] != p@[k]);
                assert(strip_trailing_seq(t, p@) == t);
            }
        }
        if !same {
            break;
        }
        hi = start;
    }
    String::from_str(s.substring_char(0, hi))
}

} // verus!
