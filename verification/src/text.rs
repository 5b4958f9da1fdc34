//! String building blocks over character sequences.

use vstd::prelude::*;

verus! {

/// Collects the characters of a string slice into a vector.
pub fn chars_of(s: &str) -> (v: Vec<char>)
    ensures
        v@ == s@,
{
    let mut v: Vec<char> = Vec::new();
    for c in it: s.chars()
        invariant
            v@ == it.seq().take(it.index() as int),
    {
        v.push(c);
    }
    v
}

/// Appends one character to a string (`String::push`).
#[verifier::external_body]
pub fn push_char(s: &mut String, c: char)
    ensures
        final(s)@ == old(s)@.push(c),
{
    s.push(c);
}

/// Removes the last character of a string, if any (`String::pop`).
#[verifier::external_body]
pub fn pop_char(s: &mut String) -> (r: Option<char>)
    ensures
        old(s)@.len() > 0 ==> final(s)@ == old(s)@.drop_last() && r == Some(old(s)@.last()),
        old(s)@.len() == 0 ==> final(s)@ == old(s)@ && r is None,
{
    s.pop()
}

/// Appends a string slice to a string (`String::push_str`).
#[verifier::external_body]
pub fn push_str(s: &mut String, t: &str)
    ensures
        final(s)@ == old(s)@ + t@,
{
    s.push_str(t);
}

/// Builds a string holding exactly the given characters.
pub fn string_from_chars(v: &[char]) -> (s: String)
    ensures
        s@ == v@,
{
    let mut s = String::new();
    let mut i: usize = 0;
    while i < v.len()
        invariant
            i <= v@.len(),
            s@ == v@.take(i as int),
        decreases v@.len() - i,
    {
        push_char(&mut s, v[i]);
        i += 1;
        assert(s@ =~= v@.take(i as int));
    }
    assert(v@.take(v@.len() as int) =~= v@);
    s
}

/// Unicode `White_Space` property, the set that `char::is_whitespace` documents.
pub open spec fn is_ws(c: char) -> bool {
    let u = c as u32;
    ||| 9 <= u <= 13
    ||| u == 32
    ||| u == 0x85
    ||| u == 0xA0
    ||| u == 0x1680
    ||| 0x2000 <= u <= 0x200A
    ||| u == 0x2028
    ||| u == 0x2029
    ||| u == 0x202F
    ||| u == 0x205F
    ||| u == 0x3000
}

/// `char::is_whitespace`.
pub fn is_whitespace(c: char) -> (b: bool)
    ensures
        b == is_ws(c),
{
    let u = c as u32;
    (9 <= u && u <= 13) || u == 32 || u == 0x85 || u == 0xA0 || u == 0x1680 || (0x2000 <= u
        && u <= 0x200A) || u == 0x2028 || u == 0x2029 || u == 0x202F || u == 0x205F || u == 0x3000
}

/// Drops leading whitespace.
pub open spec fn trim_start(s: Seq<char>) -> Seq<char>
    decreases s.len(),
{
    if s.len() > 0 && is_ws(s[0]) {
        trim_start(s.drop_first())
    } else {
        s
    }
}

/// Drops trailing whitespace.
pub open spec fn trim_end(s: Seq<char>) -> Seq<char>
    decreases s.len(),
{
    if s.len() > 0 && is_ws(s.last()) {
        trim_end(s.drop_last())
    } else {
        s
    }
}

/// Drops leading and trailing whitespace (`str::trim`).
pub open spec fn trim(s: Seq<char>) -> Seq<char> {
    trim_end(trim_start(s))
}

/// Leading whitespace that is skipped does not change what `trim_start` gives.
pub proof fn lemma_trim_start_skip(s: Seq<char>, i: int)
    requires
        0 <= i <= s.len(),
        forall|k: int| 0 <= k < i ==> is_ws(#[trigger] s[k]),
    ensures
        trim_start(s) == trim_start(s.skip(i)),
    decreases i,
{
    if i > 0 {
        assert(is_ws(s[0]));
        assert(s.drop_first().skip(i - 1) =~= s.skip(i));
        assert forall|k: int| 0 <= k < i - 1 implies is_ws(#[trigger] s.drop_first()[k]) by {
            assert(s.drop_first()[k] == s[k + 1]);
        }
        lemma_trim_start_skip(s.drop_first(), i - 1);
    } else {
        assert(s.skip(0) =~= s);
    }
}

proof fn lemma_trim_end_take(s: Seq<char>, j: int)
    requires
        0 <= j <= s.len(),
        forall|k: int| j <= k < s.len() ==> is_ws(#[trigger] s[k]),
    ensures
        trim_end(s) == trim_end(s.take(j)),
    decreases s.len() - j,
{
    if j < s.len() {
        assert(s.drop_last().take(j) =~= s.take(j));
        lemma_trim_end_take(s.drop_last(), j);
    } else {
        assert(s.take(j) =~= s);
    }
}

/// Index of the first non-whitespace character at or after `from` (or the length).
pub fn skip_ws_forward(v: &[char], from: usize) -> (i: usize)
    requires
        from <= v@.len(),
    ensures
        from <= i <= v@.len(),
        forall|k: int| from <= k < i ==> is_ws(#[trigger] v@[k]),
        i < v@.len() ==> !is_ws(v@[i as int]),
{
    let mut i = from;
    while i < v.len() && is_whitespace(v[i])
        invariant
            from <= i <= v@.len(),
            forall|k: int| from <= k < i ==> is_ws(#[trigger] v@[k]),
        decreases v@.len() - i,
    {
        i += 1;
    }
    i
}

/// Characters of `v[lo..hi]`.
pub fn slice_chars(v: &[char], lo: usize, hi: usize) -> (r: Vec<char>)
    requires
        lo <= hi <= v@.len(),
    ensures
        r@ == v@.subrange(lo as int, hi as int),
{
    let mut r: Vec<char> = Vec::new();
    let mut k = lo;
    while k < hi
        invariant
            lo <= k <= hi <= v@.len(),
            r@ == v@.subrange(lo as int, k as int),
        decreases hi - k,
    {
        r.push(v[k]);
        k += 1;
        assert(r@ =~= v@.subrange(lo as int, k as int));
    }
    r
}

/// `str::trim` on a character vector.
pub fn trim_chars(v: &[char]) -> (r: Vec<char>)
    ensures
        r@ == trim(v@),
{
    let i = skip_ws_forward(v, 0);
    proof {
        lemma_trim_start_skip(v@, i as int);
    }
    let mut j = v.len();
    while j > i && is_whitespace(v[j - 1])
        invariant
            i <= j <= v@.len(),
            forall|k: int| j <= k < v@.len() ==> is_ws(#[trigger] v@[k]),
        decreases j,
    {
        j -= 1;
    }
    let ghost t = v@.skip(i as int);
    proof {
        if i < v@.len() {
            assert(t[0] == v@[i as int]);
        }
        assert(trim_start(t) == t);
        assert forall|k: int| j - i <= k < t.len() implies is_ws(#[trigger] t[k]) by {
            assert(t[k] == v@[k + i]);
        }
        lemma_trim_end_take(t, j - i);
        let u = t.take(j - i);
        if j > i {
            assert(u.last() == v@[j - 1]);
        }
        assert(trim_end(u) == u);
        assert(u =~= v@.subrange(i as int, j as int));
    }
    slice_chars(v, i, j)
}

/// `str::trim_end` on a character vector.
pub fn trim_end_chars(v: &[char]) -> (r: Vec<char>)
    ensures
        r@ == trim_end(v@),
{
    let mut j = v.len();
    while j > 0 && is_whitespace(v[j - 1])
        invariant
            j <= v@.len(),
            forall|k: int| j <= k < v@.len() ==> is_ws(#[trigger] v@[k]),
        decreases j,
    {
        j -= 1;
    }
    proof {
        lemma_trim_end_take(v@, j as int);
        let u = v@.take(j as int);
        if j > 0 {
            assert(u.last() == v@[j - 1]);
        }
        assert(trim_end(u) == u);
        assert(u =~= v@.subrange(0, j as int));
    }
    slice_chars(v, 0, j)
}

/// `str::trim`.
pub fn str_trim(s: &str) -> (r: String)
    ensures
        r@ == trim(s@),
{
    let v = chars_of(s);
    let t = trim_chars(&v);
    string_from_chars(&t)
}

/// ASCII lower-casing of one character (`char::to_ascii_lowercase`).
pub open spec fn ascii_lower(c: char) -> char {
    if 'A' <= c <= 'Z' {
        ((c as u32) + 32) as char
    } else {
        c
    }
}

/// ASCII lower-casing of a character sequence (`str::to_ascii_lowercase`).
pub open spec fn ascii_lower_seq(s: Seq<char>) -> Seq<char> {
    s.map_values(|c: char| ascii_lower(c))
}

pub fn to_ascii_lower_char(c: char) -> (r: char)
    ensures
        r == ascii_lower(c),
{
    if 'A' <= c && c <= 'Z' {
        ((c as u32 + 32) as u8) as char
    } else {
        c
    }
}

/// `str::to_ascii_lowercase` on a character vector.
pub fn ascii_lower_chars(v: &[char]) -> (r: Vec<char>)
    ensures
        r@ == ascii_lower_seq(v@),
{
    let mut r: Vec<char> = Vec::new();
    let mut k: usize = 0;
    while k < v.len()
        invariant
            k <= v@.len(),
            r@ == ascii_lower_seq(v@.take(k as int)),
        decreases v@.len() - k,
    {
        r.push(to_ascii_lower_char(v[k]));
        k += 1;
        assert(r@ =~= ascii_lower_seq(v@.take(k as int)));
    }
    assert(v@.take(v@.len() as int) =~= v@);
    r
}

/// `n` occurs in `h` at position `i`.
pub open spec fn occurs_at(h: Seq<char>, n: Seq<char>, i: int) -> bool {
    0 <= i && i + n.len() <= h.len() && h.subrange(i, i + n.len()) == n
}

/// `h` contains `n` as a contiguous piece (`str::contains`).
pub open spec fn seq_contains(h: Seq<char>, n: Seq<char>) -> bool {
    exists|i: int| occurs_at(h, n, i)
}

/// `h` begins with `n` (`str::starts_with`).
pub open spec fn starts_with(h: Seq<char>, n: Seq<char>) -> bool {
    n.len() <= h.len() && h.take(n.len() as int) == n
}

/// `h` ends with `n` (`str::ends_with`).
pub open spec fn ends_with(h: Seq<char>, n: Seq<char>) -> bool {
    n.len() <= h.len() && h.skip(h.len() - n.len()) == n
}

/// Tests whether `n` occurs in `h` at `i`.
pub fn matches_at(h: &[char], n: &[char], i: usize) -> (b: bool)
    ensures
        b == occurs_at(h@, n@, i as int),
{
    if i > h.len() || n.len() > h.len() - i {
        return false;
    }
    let hl = h.len();
    let mut k: usize = 0;
    while k < n.len()
        invariant
            hl == h@.len(),
            i + n@.len() <= h@.len(),
            k <= n@.len(),
            forall|m: int| 0 <= m < k ==> h@[i + m] == n@[m],
        decreases n@.len() - k,
    {
        if h[i + k] != n[k] {
            assert(h@.subrange(i as int, i + n@.len())[k as int] != n@[k as int]);
            return false;
        }
        k += 1;
    }
    assert(h@.subrange(i as int, i + n@.len()) =~= n@);
    true
}

/// `str::starts_with`.
pub fn chars_starts_with(h: &[char], n: &[char]) -> (b: bool)
    ensures
        b == starts_with(h@, n@),
{
    let b = matches_at(h, n, 0);
    proof {
        if n@.len() <= h@.len() {
            assert(h@.subrange(0, n@.len() as int) =~= h@.take(n@.len() as int));
        }
    }
    b
}

/// `str::ends_with`.
pub fn chars_ends_with(h: &[char], n: &[char]) -> (b: bool)
    ensures
        b == ends_with(h@, n@),
{
    if n.len() > h.len() {
        return false;
    }
    let b = matches_at(h, n, h.len() - n.len());
    proof {
        assert(h@.subrange(h@.len() - n@.len(), h@.len() as int) =~= h@.skip(h@.len() - n@.len()));
    }
    b
}

/// First occurrence of `n` in `h` at or after `from`.
pub fn find_from(h: &[char], n: &[char], from: usize) -> (r: Option<usize>)
    ensures
        match r {
            Some(i) => from <= i && occurs_at(h@, n@, i as int) && forall|j: int|
                from <= j < i ==> !occurs_at(h@, n@, j),
            None => forall|j: int| from <= j ==> !occurs_at(h@, n@, j),
        },
{
    if n.len() > h.len() {
        return None;
    }
    let last = h.len() - n.len();
    let mut i = from;
    while i <= last
        invariant
            last + n@.len() == h@.len(),
            from <= i,
            forall|j: int| from <= j < i ==> !occurs_at(h@, n@, j),
        decreases last + 1 - i,
    {
        if matches_at(h, n, i) {
            return Some(i);
        }
        if i == last {
            return None;
        }
        i += 1;
    }
    None
}

/// Position of the first occurrence of `n` in `h` at or after `i` (`str::find`).
pub open spec fn find_first_from(h: Seq<char>, n: Seq<char>, i: int) -> Option<int>
    decreases h.len() + 1 - i,
{
    if i < 0 || i + n.len() > h.len() {
        None
    } else if occurs_at(h, n, i) {
        Some(i)
    } else {
        find_first_from(h, n, i + 1)
    }
}

/// Position of the first occurrence of `n` in `h` (`str::find`).
pub open spec fn find_first(h: Seq<char>, n: Seq<char>) -> Option<int> {
    find_first_from(h, n, 0)
}

/// `find_first_from` gives the first occurrence at or after `from`, or none.
pub proof fn lemma_find_first_from(h: Seq<char>, n: Seq<char>, from: int, r: Option<int>)
    requires
        0 <= from,
        match r {
            Some(i) => from <= i && occurs_at(h, n, i) && forall|j: int|
                from <= j < i ==> !occurs_at(h, n, j),
            None => forall|j: int| from <= j ==> !occurs_at(h, n, j),
        },
    ensures
        find_first_from(h, n, from) == r,
    decreases h.len() + 1 - from,
{
    if from + n.len() > h.len() {
        match r {
            Some(i) => {
                assert(!occurs_at(h, n, i));
            },
            None => {},
        }
    } else if occurs_at(h, n, from) {
        match r {
            Some(i) => {
                if i > from {
                    assert(!occurs_at(h, n, from));
                }
            },
            None => {
                assert(!occurs_at(h, n, from));
            },
        }
    } else {
        match r {
            Some(i) => {
                assert(i != from);
            },
            None => {},
        }
        lemma_find_first_from(h, n, from + 1, r);
    }
}

proof fn lemma_find_first_from_bounds(h: Seq<char>, n: Seq<char>, i: int)
    ensures
        find_first_from(h, n, i) matches Some(k) ==> i <= k && occurs_at(h, n, k),
    decreases h.len() + 1 - i,
{
    if !(i < 0 || i + n.len() > h.len()) && !occurs_at(h, n, i) {
        lemma_find_first_from_bounds(h, n, i + 1);
    }
}

/// A first occurrence lies inside the text.
pub proof fn lemma_find_first_bounds(h: Seq<char>, n: Seq<char>)
    ensures
        find_first(h, n) matches Some(k) ==> 0 <= k && k + n.len() <= h.len() && occurs_at(h, n, k),
{
    lemma_find_first_from_bounds(h, n, 0);
}

/// `str::find`: position of the first occurrence of `n` in `h`.
pub fn find_first_chars(h: &[char], n: &[char]) -> (r: Option<usize>)
    ensures
        match r {
            Some(i) => find_first(h@, n@) == Some(i as int) && occurs_at(h@, n@, i as int),
            None => find_first(h@, n@) is None,
        },
{
    let r = find_from(h, n, 0);
    proof {
        let ri: Option<int> = match r {
            Some(i) => Some(i as int),
            None => None,
        };
        lemma_find_first_from(h@, n@, 0, ri);
    }
    r
}

/// `str::contains`.
pub fn chars_contains(h: &[char], n: &[char]) -> (b: bool)
    ensures
        b == seq_contains(h@, n@),
{
    match find_from(h, n, 0) {
        Some(i) => true,
        None => {
            assert forall|j: int| !occurs_at(h@, n@, j) by {
                if j < 0 {
                }
            }
            false
        },
    }
}

/// Decimal digit character for `d < 10`.
pub open spec fn digit_char(d: nat) -> char {
    ('0' as nat + d) as char
}

/// Decimal rendering of a natural number (`u64::to_string`).
pub open spec fn decimal(n: nat) -> Seq<char>
    decreases n,
{
    if n < 10 {
        seq![digit_char(n)]
    } else {
        decimal(n / 10).push(digit_char(n % 10))
    }
}

/// Decimal rendering of `n`.
pub fn u64_to_decimal(n: u64) -> (r: Vec<char>)
    ensures
        r@ == decimal(n as nat),
    decreases n,
{
    let d = ((48 + (n % 10)) as u8) as char;
    if n < 10 {
        let mut r: Vec<char> = Vec::new();
        r.push(d);
        assert(r@ =~= seq![digit_char(n as nat)]);
        r
    } else {
        let mut r = u64_to_decimal(n / 10);
        r.push(d);
        r
    }
}

/// Appends the characters of `v` to `s`.
pub fn push_chars(s: &mut String, v: &[char])
    ensures
        final(s)@ == old(s)@ + v@,
{
    let mut k: usize = 0;
    while k < v.len()
        invariant
            k <= v@.len(),
            s@ == old(s)@ + v@.take(k as int),
        decreases v@.len() - k,
    {
        push_char(s, v[k]);
        k += 1;
        assert(s@ =~= old(s)@ + v@.take(k as int));
    }
    assert(v@.take(v@.len() as int) =~= v@);
}

/// Appends the characters of `t` to `v`.
pub fn extend_chars(v: &mut Vec<char>, t: &[char])
    ensures
        final(v)@ == old(v)@ + t@,
{
    let mut k: usize = 0;
    while k < t.len()
        invariant
            k <= t@.len(),
            v@ == old(v)@ + t@.take(k as int),
        decreases t@.len() - k,
    {
        v.push(t[k]);
        k += 1;
        assert(v@ =~= old(v)@ + t@.take(k as int));
    }
    assert(t@.take(t@.len() as int) =~= t@);
}

/// Unicode lower-casing (`str::to_lowercase`), as the standard library computes it.
pub uninterp spec fn lowercase(s: Seq<char>) -> Seq<char>;

/// All characters are ASCII.
pub open spec fn all_ascii(s: Seq<char>) -> bool {
    forall|i: int| 0 <= i < s.len() ==> (s[i] as u32) < 128
}

/// `str::to_lowercase`: the result is the name `lowercase` of the input; on ASCII text it
/// is the ASCII lower-casing, as the standard library documents.
#[verifier::external_body]
pub fn str_to_lowercase(s: &str) -> (r: String)
    ensures
        r@ == lowercase(s@),
        all_ascii(s@) ==> r@ == ascii_lower_seq(s@),
{
    s.to_lowercase()
}

/// Lower-cased characters of `v` (`str::to_lowercase` on the string they form).
pub fn lowercase_chars(v: &[char]) -> (r: Vec<char>)
    ensures
        r@ == lowercase(v@),
{
    let s = string_from_chars(v);
    let l = str_to_lowercase(s.as_str());
    chars_of(l.as_str())
}

/// Indices `i < n` (in increasing order) for which `f(i)` holds.
pub open spec fn indices_where(n: nat, f: spec_fn(int) -> bool) -> Seq<usize>
    decreases n,
{
    if n == 0 {
        seq![]
    } else {
        let r = indices_where((n - 1) as nat, f);
        if f(n - 1) {
            r.push((n - 1) as usize)
        } else {
            r
        }
    }
}

/// Each index in `indices_where(n, f)` is below `n`, satisfies `f`, and the indices are
/// strictly increasing; every `i < n` satisfying `f` is listed.
pub proof fn lemma_indices_where(n: nat, f: spec_fn(int) -> bool)
    requires
        n <= usize::MAX,
    ensures
        forall|k: int|
            0 <= k < indices_where(n, f).len() ==> #[trigger] indices_where(n, f)[k] < n && f(
                indices_where(n, f)[k] as int,
            ),
        forall|k1: int, k2: int|
            0 <= k1 < k2 < indices_where(n, f).len() ==> #[trigger] indices_where(n, f)[k1]
                < #[trigger] indices_where(n, f)[k2],
        forall|i: int| 0 <= i < n && f(i) ==> #[trigger] indices_where(n, f).contains(i as usize),
        indices_where(n, f).len() <= n,
    decreases n,
{
    if n > 0 {
        lemma_indices_where((n - 1) as nat, f);
        let r = indices_where((n - 1) as nat, f);
        let w = indices_where(n, f);
        if f(n - 1) {
            assert(w == r.push((n - 1) as usize));
            assert forall|k: int| 0 <= k < w.len() implies #[trigger] w[k] < n && f(w[k] as int) by {
                if k < r.len() {
                    assert(w[k] == r[k]);
                } else {
                    assert(w[k] == (n - 1) as usize);
                }
            }
            assert forall|k1: int, k2: int| 0 <= k1 < k2 < w.len() implies #[trigger] w[k1]
                < #[trigger] w[k2] by {
                assert(w[k1] == r[k1]);
                if k2 < r.len() {
                    assert(w[k2] == r[k2]);
                } else {
                    assert(w[k2] == (n - 1) as usize);
                    assert(r[k1] < n - 1);
                }
            }
            assert forall|i: int| 0 <= i < n && f(i) implies #[trigger] w.contains(i as usize) by {
                if i < n - 1 {
                    assert(r.contains(i as usize));
                    let k = choose|k: int| 0 <= k < r.len() && r[k] == i as usize;
                    assert(w[k] == i as usize);
                } else {
                    assert(w[r.len() as int] == i as usize);
                }
            }
        } else {
            assert(w == r);
        }
    }
}

/// Number of occurrences of `c` in `s`.
pub open spec fn count_char(s: Seq<char>, c: char) -> nat
    decreases s.len(),
{
    if s.len() == 0 {
        0
    } else {
        count_char(s.drop_last(), c) + if s.last() == c {
            1nat
        } else {
            0nat
        }
    }
}

/// Number of lines that `str::lines` yields: pieces separated by `\n`, without an empty
/// piece after a final `\n`.
pub open spec fn line_count(s: Seq<char>) -> nat {
    if s.len() == 0 {
        0
    } else if s.last() == '\n' {
        count_char(s, '\n')
    } else {
        count_char(s, '\n') + 1
    }
}

/// `str::lines().count()`.
pub fn count_lines(s: &str) -> (n: usize)
    ensures
        n == line_count(s@),
{
    let v = chars_of(s);
    let mut k: usize = 0;
    let mut newlines: usize = 0;
    while k < v.len()
        invariant
            k <= v@.len(),
            newlines == count_char(v@.take(k as int), '\n'),
            newlines <= k,
            k > 0 && v@[k - 1] != '\n' ==> newlines < k,
        decreases v@.len() - k,
    {
        assert(v@.take(k + 1).drop_last() =~= v@.take(k as int));
        if v[k] == '\n' {
            newlines += 1;
        }
        k += 1;
    }
    assert(v@.take(v@.len() as int) =~= v@);
    if v.len() == 0 {
        0
    } else if v[v.len() - 1] == '\n' {
        newlines
    } else {
        newlines + 1
    }
}

/// Character-wise equality.
pub fn chars_eq(a: &[char], b: &[char]) -> (r: bool)
    ensures
        r == (a@ == b@),
{
    if a.len() != b.len() {
        return false;
    }
    let mut k: usize = 0;
    while k < a.len()
        invariant
            a@.len() == b@.len(),
            k <= a@.len(),
            forall|m: int| 0 <= m < k ==> a@[m] == b@[m],
        decreases a@.len() - k,
    {
        if a[k] != b[k] {
            return false;
        }
        k += 1;
    }
    assert(a@ =~= b@);
    true
}

/// `a == b` on string slices.
pub fn str_eq(a: &str, b: &str) -> (r: bool)
    ensures
        r == (a@ == b@),
{
    chars_eq(&chars_of(a), &chars_of(b))
}

/// The pieces of `t` between occurrences of `c` (`str::split`): never empty, with an empty
/// piece before a leading, after a trailing and between two adjacent separators.
pub open spec fn split_on(t: Seq<char>, c: char) -> Seq<Seq<char>>
    decreases t.len(),
{
    if t.len() == 0 {
        seq![Seq::empty()]
    } else {
        let init = split_on(t.drop_last(), c);
        if t.last() == c {
            init.push(Seq::empty())
        } else {
            init.update(init.len() - 1, init.last().push(t.last()))
        }
    }
}

/// Splitting always gives at least one piece.
pub proof fn lemma_split_nonempty(t: Seq<char>, c: char)
    ensures
        split_on(t, c).len() >= 1,
    decreases t.len(),
{
    if t.len() > 0 {
        lemma_split_nonempty(t.drop_last(), c);
    }
}

pub open spec fn vec_views(v: Seq<Vec<char>>) -> Seq<Seq<char>> {
    v.map_values(|x: Vec<char>| x@)
}

/// Splits characters at each occurrence of `c`.
pub fn split_chars(t: &[char], c: char) -> (r: Vec<Vec<char>>)
    ensures
        vec_views(r@) == split_on(t@, c),
{
    let mut done: Vec<Vec<char>> = Vec::new();
    let mut cur: Vec<char> = Vec::new();
    let mut i: usize = 0;
    assert(t@.take(0) =~= Seq::<char>::empty());
    while i < t.len()
        invariant
            i <= t@.len(),
            vec_views(done@).push(cur@) == split_on(t@.take(i as int), c),
        decreases t@.len() - i,
    {
        let ghost before = vec_views(done@).push(cur@);
        proof {
            assert(t@.take(i + 1).drop_last() =~= t@.take(i as int));
            assert(t@.take(i + 1).last() == t@[i as int]);
        }
        if t[i] == c {
            let ghost old_done = done@;
            let finished = cur;
            done.push(finished);
            cur = Vec::new();
            assert(vec_views(done@) =~= vec_views(old_done).push(finished@));
            assert(vec_views(done@).push(cur@) =~= before.push(Seq::empty()));
        } else {
            cur.push(t[i]);
            assert(vec_views(done@).push(cur@) =~= before.update(
                before.len() - 1,
                before.last().push(t@[i as int]),
            ));
        }
        i += 1;
    }
    assert(t@.take(t@.len() as int) =~= t@);
    let ghost old_done = done@;
    let last = cur;
    done.push(last);
    assert(vec_views(done@) =~= vec_views(old_done).push(last@));
    done
}

/// A line of `str::lines`: a trailing `\r` is dropped from a piece that a `\n` ended.
pub open spec fn line_piece(p: Seq<char>, terminated: bool) -> Seq<char> {
    if terminated && p.len() > 0 && p.last() == '\r' {
        p.drop_last()
    } else {
        p
    }
}

/// The lines `str::lines` yields: pieces between `\n`, without the empty piece after a final
/// `\n`; a piece followed by `\n` loses a trailing `\r` (so `\r\n` also ends a line), and a
/// last piece without `\n` keeps it.
pub open spec fn text_lines(s: Seq<char>) -> Seq<Seq<char>> {
    let ends = s.len() > 0 && s.last() == '\n';
    let ps = if s.len() == 0 {
        Seq::empty()
    } else if ends {
        split_on(s, '\n').drop_last()
    } else {
        split_on(s, '\n')
    };
    Seq::new(ps.len(), |j: int| line_piece(ps[j], ends || j + 1 < ps.len()))
}

/// `str::lines`, each line's characters.
pub fn str_lines(text: &str) -> (r: Vec<Vec<char>>)
    ensures
        vec_views(r@) == text_lines(text@),
{
    let v = chars_of(text);
    let parts = split_chars(&v, '\n');
    let ghost all = vec_views(parts@);
    let ends = v.len() > 0 && v[v.len() - 1] == '\n';
    let n: usize = if v.len() == 0 {
        0
    } else if ends {
        proof {
            lemma_split_nonempty(v@, '\n');
        }
        parts.len() - 1
    } else {
        parts.len()
    };
    let ghost ps = if v@.len() == 0 {
        Seq::<Seq<char>>::empty()
    } else if ends {
        all.drop_last()
    } else {
        all
    };
    assert(ps.len() == n);
    let mut out: Vec<Vec<char>> = Vec::new();
    let mut k: usize = 0;
    while k < n
        invariant
            k <= n,
            n <= parts@.len(),
            ps.len() == n,
            all == vec_views(parts@),
            forall|j: int| 0 <= j < n ==> ps[j] == all[j],
            out@.len() == k,
            forall|j: int|
                0 <= j < k ==> (#[trigger] out@[j])@ == line_piece(ps[j], ends || j + 1 < n),
        decreases n - k,
    {
        let piece = &parts[k];
        let ghost pk = ps[k as int];
        assert(pk == piece@);
        let terminated = ends || k + 1 < n;
        let stripped = if terminated && piece.len() > 0 && piece[piece.len() - 1] == '\r' {
            slice_chars(piece, 0, piece.len() - 1)
        } else {
            slice_chars(piece, 0, piece.len())
        };
        assert(stripped@ =~= line_piece(pk, terminated));
        out.push(stripped);
        k += 1;
    }
    assert(vec_views(out@) =~= text_lines(text@));
    out
}

} // verus!
