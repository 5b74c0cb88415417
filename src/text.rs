//! Character-level string helpers and their mathematical models.
use vstd::prelude::*;

verus! {

/// Unicode `White_Space`, the set `char::is_whitespace` tests for.
pub open spec fn is_space(c: char) -> bool {
    let u = c as u32;
    ||| 0x09 <= u <= 0x0d
    ||| u == 0x20
    ||| u == 0x85
    ||| u == 0xa0
    ||| u == 0x1680
    ||| 0x2000 <= u <= 0x200a
    ||| u == 0x2028
    ||| u == 0x2029
    ||| u == 0x202f
    ||| u == 0x205f
    ||| u == 0x3000
}

/// `s` without its leading white space.
pub open spec fn trim_start(s: Seq<char>) -> Seq<char>
    decreases s.len(),
{
    if s.len() > 0 && is_space(s[0]) {
        trim_start(s.drop_first())
    } else {
        s
    }
}

/// `s` without its trailing white space.
pub open spec fn trim_end(s: Seq<char>) -> Seq<char>
    decreases s.len(),
{
    if s.len() > 0 && is_space(s.last()) {
        trim_end(s.drop_last())
    } else {
        s
    }
}

/// `s` without white space at either end.
pub open spec fn trim(s: Seq<char>) -> Seq<char> {
    trim_end(trim_start(s))
}

/// The pieces of `s` between occurrences of `sep`, empty ones included:
/// one piece more than `s` has separators.
pub open spec fn split(s: Seq<char>, sep: char) -> Seq<Seq<char>>
    decreases s.len(),
{
    if s.len() == 0 {
        seq![Seq::empty()]
    } else {
        let p = split(s.drop_last(), sep);
        if s.last() == sep {
            p.push(Seq::empty())
        } else {
            p.update(p.len() - 1, p.last().push(s.last()))
        }
    }
}

/// The trimmed form of `piece`, as a list of one element, or no element when
/// it is blank.
pub open spec fn kept(piece: Seq<char>) -> Seq<Seq<char>> {
    if trim(piece).len() > 0 {
        seq![trim(piece)]
    } else {
        Seq::empty()
    }
}

/// The trimmed pieces of `parts` that are not blank, in order.
pub open spec fn keep_nonblank(parts: Seq<Seq<char>>) -> Seq<Seq<char>>
    decreases parts.len(),
{
    if parts.len() == 0 {
        Seq::empty()
    } else {
        keep_nonblank(parts.drop_last()) + kept(parts.last())
    }
}

/// The trimmed, non-blank pieces of `s` between occurrences of `sep`.
pub open spec fn nonblank_pieces(s: Seq<char>, sep: char) -> Seq<Seq<char>> {
    keep_nonblank(split(s, sep))
}

/// The pieces joined, with `sep` between two neighbours.
pub open spec fn join(parts: Seq<Seq<char>>, sep: char) -> Seq<char>
    decreases parts.len(),
{
    if parts.len() == 0 {
        Seq::empty()
    } else if parts.len() == 1 {
        parts[0]
    } else {
        join(parts.drop_last(), sep).push(sep) + parts.last()
    }
}

/// `s` with every trailing `c` removed.
pub open spec fn trim_end_char(s: Seq<char>, c: char) -> Seq<char>
    decreases s.len(),
{
    if s.len() > 0 && s.last() == c {
        trim_end_char(s.drop_last(), c)
    } else {
        s
    }
}

/// Whether `s` ends with the non-empty `suffix`.
pub open spec fn ends_with(s: Seq<char>, suffix: Seq<char>) -> bool {
    &&& suffix.len() > 0
    &&& s.len() >= suffix.len()
    &&& s.subrange(s.len() - suffix.len(), s.len() as int) == suffix
}

/// `s` with the non-empty `suffix` removed from its end as often as it
/// occurs there.
pub open spec fn trim_end_seq(s: Seq<char>, suffix: Seq<char>) -> Seq<char>
    decreases s.len(),
{
    if ends_with(s, suffix) {
        trim_end_seq(s.subrange(0, s.len() - suffix.len()), suffix)
    } else {
        s
    }
}

/// The views of a list of strings.
pub open spec fn views(v: Seq<String>) -> Seq<Seq<char>> {
    v.map_values(|x: String| x@)
}

/// The lower-case digit of value `d`, for `d` below sixteen.
pub open spec fn digit(d: nat) -> char {
    if d == 0 { '0' }
    else if d == 1 { '1' }
    else if d == 2 { '2' }
    else if d == 3 { '3' }
    else if d == 4 { '4' }
    else if d == 5 { '5' }
    else if d == 6 { '6' }
    else if d == 7 { '7' }
    else if d == 8 { '8' }
    else if d == 9 { '9' }
    else if d == 10 { 'a' }
    else if d == 11 { 'b' }
    else if d == 12 { 'c' }
    else if d == 13 { 'd' }
    else if d == 14 { 'e' }
    else { 'f' }
}

/// The decimal numeral of `n`, without leading zeros.
pub open spec fn decimal(n: nat) -> Seq<char>
    decreases n,
{
    if n < 10 {
        seq![digit(n)]
    } else {
        decimal(n / 10).push(digit(n % 10))
    }
}

/// `n` zero characters.
pub open spec fn zeros(n: nat) -> Seq<char> {
    Seq::new(n, |i: int| '0')
}

/// The decimal numeral of `n`, padded with zeros on the left to `width`.
pub open spec fn padded(n: nat, width: nat) -> Seq<char> {
    if decimal(n).len() < width {
        zeros((width - decimal(n).len()) as nat) + decimal(n)
    } else {
        decimal(n)
    }
}

/// The characters of `s`, in order.
pub fn chars_of(s: &str) -> (r: Vec<char>)
    ensures
        r@ == s@,
{
    let mut r: Vec<char> = Vec::new();
    for c in it: s.chars()
        invariant
            r@ == it.seq().take(it.index() as int),
            it.seq() == s@,
    {
        r.push(c);
    }
    r
}

/// Relies on `String::push`: appends one character at the end.
#[verifier::external_body]
pub(crate) fn push_char(s: &mut String, c: char)
    ensures
        final(s)@ == old(s)@.push(c),
{
    s.push(c);
}

/// Appends the characters of `v` to `s`.
pub fn push_chars(s: &mut String, v: &[char])
    ensures
        final(s)@ == old(s)@ + v@,
{
    let mut i: usize = 0;
    while i < v.len()
        invariant
            i <= v@.len(),
            s@ == old(s)@ + v@.take(i as int),
        decreases v@.len() - i,
    {
        push_char(s, v[i]);
        i += 1;
        assert(v@.take(i as int) == v@.take((i - 1) as int).push(v@[i - 1]));
    }
    assert(v@.take(i as int) == v@);
}

/// A string holding exactly the characters of `v`.
pub fn string_of(v: &[char]) -> (r: String)
    ensures
        r@ == v@,
{
    let mut r = String::new();
    push_chars(&mut r, v);
    r
}

/// Whether `c` is white space.
pub fn char_is_space(c: char) -> (r: bool)
    ensures
        r == is_space(c),
{
    let u = c as u32;
    (0x09 <= u && u <= 0x0d) || u == 0x20 || u == 0x85 || u == 0xa0 || u == 0x1680
        || (0x2000 <= u && u <= 0x200a) || u == 0x2028 || u == 0x2029 || u == 0x202f
        || u == 0x205f || u == 0x3000
}

proof fn lemma_trim_start_skip(s: Seq<char>, i: int)
    requires
        0 <= i < s.len(),
        is_space(s[i]),
    ensures
        trim_start(s.skip(i)) == trim_start(s.skip(i + 1)),
{
    assert(s.skip(i).drop_first() == s.skip(i + 1));
}

proof fn lemma_trim_end_take(s: Seq<char>, j: int)
    requires
        0 < j <= s.len(),
        is_space(s[j - 1]),
    ensures
        trim_end(s.take(j)) == trim_end(s.take(j - 1)),
{
    assert(s.take(j).drop_last() == s.take(j - 1));
}

/// The characters of `v` without white space at either end.
pub fn trimmed(v: &[char]) -> (r: Vec<char>)
    ensures
        r@ == trim(v@),
{
    let n = v.len();
    let mut i: usize = 0;
    assert(v@.skip(0) == v@);
    while i < n && char_is_space(v[i])
        invariant
            n == v@.len(),
            i <= n,
            trim_start(v@) == trim_start(v@.skip(i as int)),
        decreases n - i,
    {
        proof {
            lemma_trim_start_skip(v@, i as int);
        }
        i += 1;
    }
    assert(trim_start(v@.skip(i as int)) == v@.skip(i as int));
    let ghost u = v@.skip(i as int);
    let mut j: usize = n;
    assert(u.take(j - i) == u);
    while j > i && char_is_space(v[j - 1])
        invariant
            n == v@.len(),
            i <= j <= n,
            u == v@.skip(i as int),
            trim_end(u) == trim_end(u.take(j - i)),
        decreases j,
    {
        proof {
            lemma_trim_end_take(u, j - i);
        }
        j -= 1;
    }
    assert(trim_end(u.take(j - i)) == u.take(j - i));
    let mut r: Vec<char> = Vec::new();
    let mut k: usize = i;
    while k < j
        invariant
            n == v@.len(),
            i <= k <= j <= n,
            r@ == v@.subrange(i as int, k as int),
        decreases j - k,
    {
        r.push(v[k]);
        k += 1;
        assert(r@ == v@.subrange(i as int, k as int));
    }
    assert(r@ == u.take(j - i));
    r
}

proof fn lemma_views_push(v: Seq<String>, x: String)
    ensures
        views(v.push(x)) == views(v).push(x@),
{
    assert(views(v.push(x)) =~= views(v).push(x@));
}

/// The trimmed, non-blank pieces of `s` between occurrences of `sep`, in
/// order.
pub fn nonblank_pieces_of(s: &str, sep: char) -> (r: Vec<String>)
    ensures
        views(r@) == nonblank_pieces(s@, sep),
{
    let v = chars_of(s);
    let n = v.len();
    let mut out: Vec<String> = Vec::new();
    let mut cur: Vec<char> = Vec::new();
    let ghost mut done: Seq<Seq<char>> = Seq::empty();
    let mut i: usize = 0;
    assert(v@.take(0) =~= Seq::<char>::empty());
    assert(split(Seq::<char>::empty(), sep) == seq![Seq::<char>::empty()]);
    assert(done.push(cur@) =~= seq![Seq::<char>::empty()]);
    while i < n
        invariant
            n == v@.len(),
            i <= n,
            v@ == s@,
            split(v@.take(i as int), sep) == done.push(cur@),
            views(out@) == keep_nonblank(done),
        decreases n - i,
    {
        let c = v[i];
        let ghost prev = v@.take(i as int);
        assert(v@.take(i + 1).drop_last() == prev);
        assert(v@.take(i + 1).last() == c);
        if c == sep {
            let t = trimmed(cur.as_slice());
            proof {
                assert(keep_nonblank(done.push(cur@)) == keep_nonblank(done) + kept(cur@)) by {
                    assert(done.push(cur@).drop_last() == done);
                }
            }
            if t.len() > 0 {
                let piece = string_of(t.as_slice());
                proof {
                    lemma_views_push(out@, piece);
                    assert(kept(cur@) == seq![t@]);
                    assert(keep_nonblank(done) + seq![t@] == keep_nonblank(done).push(t@));
                }
                out.push(piece);
            } else {
                assert(kept(cur@) == Seq::<Seq<char>>::empty());
                assert(keep_nonblank(done) + kept(cur@) == keep_nonblank(done));
            }
            proof {
                done = done.push(cur@);
            }
            cur = Vec::new();
            assert(split(v@.take(i + 1), sep) == done.push(cur@));
        } else {
            proof {
                let p = split(prev, sep);
                assert(p.update(p.len() - 1, p.last().push(c)) == done.push(cur@.push(c)));
            }
            cur.push(c);
        }
        i += 1;
    }
    assert(v@.take(n as int) == v@);
    let t = trimmed(cur.as_slice());
    proof {
        assert(keep_nonblank(done.push(cur@)) == keep_nonblank(done) + kept(cur@)) by {
            assert(done.push(cur@).drop_last() == done);
        }
    }
    if t.len() > 0 {
        let piece = string_of(t.as_slice());
        proof {
            lemma_views_push(out@, piece);
            assert(kept(cur@) == seq![t@]);
            assert(keep_nonblank(done) + seq![t@] == keep_nonblank(done).push(t@));
        }
        out.push(piece);
    } else {
        assert(keep_nonblank(done) + kept(cur@) == keep_nonblank(done));
    }
    out
}

/// The strings of `parts` joined, with `sep` between two neighbours.
pub fn join_with(parts: &Vec<String>, sep: char) -> (r: String)
    ensures
        r@ == join(views(parts@), sep),
{
    let mut r = String::new();
    let mut i: usize = 0;
    assert(views(parts@).take(0) =~= Seq::<Seq<char>>::empty());
    while i < parts.len()
        invariant
            i <= parts@.len(),
            r@ == join(views(parts@).take(i as int), sep),
        decreases parts@.len() - i,
    {
        let ghost before = views(parts@).take(i as int);
        let piece = chars_of(parts[i].as_str());
        if i > 0 {
            push_char(&mut r, sep);
        }
        push_chars(&mut r, piece.as_slice());
        i += 1;
        proof {
            let now = views(parts@).take(i as int);
            assert(now.drop_last() == before);
            assert(now.last() == parts@[i - 1]@);
            if i == 1 {
                assert(r@ == now[0]);
            }
        }
    }
    assert(views(parts@).take(i as int) == views(parts@));
    r
}

/// The characters of `v` with every trailing `c` removed.
pub fn without_trailing(v: &[char], c: char) -> (r: Vec<char>)
    ensures
        r@ == trim_end_char(v@, c),
{
    let mut j: usize = v.len();
    assert(v@.take(j as int) == v@);
    while j > 0 && v[j - 1] == c
        invariant
            j <= v@.len(),
            trim_end_char(v@, c) == trim_end_char(v@.take(j as int), c),
        decreases j,
    {
        assert(v@.take(j as int).drop_last() == v@.take(j - 1));
        j -= 1;
    }
    let mut r: Vec<char> = Vec::new();
    let mut k: usize = 0;
    while k < j
        invariant
            k <= j <= v@.len(),
            r@ == v@.take(k as int),
        decreases j - k,
    {
        r.push(v[k]);
        k += 1;
        assert(r@ == v@.take(k as int));
    }
    r
}

/// Whether the first `len` characters of `v` end with `suffix`.
fn ends_with_at(v: &[char], len: usize, suffix: &[char]) -> (r: bool)
    requires
        len <= v@.len(),
    ensures
        r == ends_with(v@.take(len as int), suffix@),
{
    let m = suffix.len();
    if m == 0 || len < m {
        return false;
    }
    let base = len - m;
    let mut k: usize = 0;
    while k < m
        invariant
            m == suffix@.len(),
            base + m == len <= v@.len(),
            k <= m,
            forall|q: int| 0 <= q < k ==> v@[base + q] == suffix@[q],
        decreases m - k,
    {
        if v[base + k] != suffix[k] {
            assert(v@.take(len as int).subrange(base as int, len as int)[k as int] != suffix@[k as int]);
            return false;
        }
        k += 1;
    }
    assert(v@.take(len as int).subrange(base as int, len as int) =~= suffix@);
    true
}

/// The characters of `v` with `suffix` removed from the end as often as it
/// occurs there.
pub fn without_trailing_seq(v: &[char], suffix: &[char]) -> (r: Vec<char>)
    ensures
        r@ == trim_end_seq(v@, suffix@),
{
    let mut j: usize = v.len();
    assert(v@.take(j as int) == v@);
    while ends_with_at(v, j, suffix)
        invariant
            j <= v@.len(),
            trim_end_seq(v@, suffix@) == trim_end_seq(v@.take(j as int), suffix@),
        decreases j,
    {
        let m = suffix.len();
        assert(v@.take(j as int).subrange(0, j - m) == v@.take(j - m));
        j -= m;
    }
    let mut r: Vec<char> = Vec::new();
    let mut k: usize = 0;
    while k < j
        invariant
            k <= j <= v@.len(),
            r@ == v@.take(k as int),
        decreases j - k,
    {
        r.push(v[k]);
        k += 1;
        assert(r@ == v@.take(k as int));
    }
    r
}

/// The digit of value `d`.
pub fn digit_of(d: u8) -> (c: char)
    requires
        d < 16,
    ensures
        c == digit(d as nat),
{
    if d == 0 { '0' }
    else if d == 1 { '1' }
    else if d == 2 { '2' }
    else if d == 3 { '3' }
    else if d == 4 { '4' }
    else if d == 5 { '5' }
    else if d == 6 { '6' }
    else if d == 7 { '7' }
    else if d == 8 { '8' }
    else if d == 9 { '9' }
    else if d == 10 { 'a' }
    else if d == 11 { 'b' }
    else if d == 12 { 'c' }
    else if d == 13 { 'd' }
    else if d == 14 { 'e' }
    else { 'f' }
}

/// Appends the decimal numeral of `n` to `s`.
pub fn push_decimal(s: &mut String, n: u64)
    ensures
        final(s)@ == old(s)@ + decimal(n as nat),
    decreases n,
{
    if n >= 10 {
        push_decimal(s, n / 10);
        push_char(s, digit_of((n % 10) as u8));
        assert(old(s)@ + decimal(n as nat) == old(s)@ + decimal((n / 10) as nat) + seq![digit((n % 10) as nat)]);
    } else {
        push_char(s, digit_of(n as u8));
        assert(decimal(n as nat) == seq![digit(n as nat)]);
    }
}

/// Appends the decimal numeral of `n`, padded with zeros to `width`, to `s`.
pub fn push_padded(s: &mut String, n: u64, width: u8)
    ensures
        final(s)@ == old(s)@ + padded(n as nat, width as nat),
{
    let mut digits = String::new();
    push_decimal(&mut digits, n);
    let len = digits.as_str().unicode_len();
    assert(digits@ == decimal(n as nat));
    let mut k: usize = len;
    let ghost start = s@;
    while k < width as usize
        invariant
            len == decimal(n as nat).len(),
            len <= k,
            k <= width || k == len,
            s@ == start + zeros((k - len) as nat),
        decreases width - k,
    {
        push_char(s, '0');
        k += 1;
        assert(s@ =~= start + zeros((k - len) as nat));
    }
    let d = chars_of(digits.as_str());
    push_chars(s, d.as_slice());
    if len < width as usize {
        assert(s@ == start + (zeros((width - len) as nat) + decimal(n as nat)));
    } else {
        assert(zeros(0) =~= Seq::<char>::empty());
        assert(s@ == start + decimal(n as nat));
    }
}

/// Whether `a` and `b` hold the same characters.
pub fn same_chars(a: &str, b: &str) -> (r: bool)
    ensures
        r == (a@ == b@),
{
    let x = chars_of(a);
    let y = chars_of(b);
    if x.len() != y.len() {
        return false;
    }
    let mut i: usize = 0;
    while i < x.len()
        invariant
            x@ == a@,
            y@ == b@,
            x@.len() == y@.len(),
            i <= x@.len(),
            forall|k: int| 0 <= k < i ==> x@[k] == y@[k],
        decreases x@.len() - i,
    {
        if x[i] != y[i] {
            assert(x@[i as int] != y@[i as int]);
            return false;
        }
        i += 1;
    }
    assert(x@ =~= y@);
    true
}

} // verus!
