//! Character-sequence helpers: the mathematical meaning of splitting, searching and
//! trimming text, and executable versions proved against it.
use vstd::prelude::*;

verus! {

/// `p` occurs in `s` starting at index `i`.
pub open spec fn occurs_at(s: Seq<char>, p: Seq<char>, i: int) -> bool {
    0 <= i && i + p.len() <= s.len() && s.subrange(i, i + p.len()) == p
}

pub open spec fn starts_with(s: Seq<char>, p: Seq<char>) -> bool {
    occurs_at(s, p, 0)
}

pub open spec fn ends_with(s: Seq<char>, p: Seq<char>) -> bool {
    p.len() <= s.len() && occurs_at(s, p, s.len() - p.len())
}

pub open spec fn contains(s: Seq<char>, p: Seq<char>) -> bool {
    exists|i: int| occurs_at(s, p, i)
}

/// The pieces of `s[start..]` cut at the occurrences of `p`, found left to right
/// without overlap; the scan for the next occurrence has reached `i`.
pub open spec fn split_from(s: Seq<char>, p: Seq<char>, start: int, i: int) -> Seq<Seq<char>>
    decreases s.len() - i,
{
    if p.len() == 0 || i < start || i + p.len() > s.len() {
        seq![s.subrange(start, s.len() as int)]
    } else if occurs_at(s, p, i) {
        seq![s.subrange(start, i)] + split_from(s, p, i + p.len(), i + p.len())
    } else {
        split_from(s, p, start, i + 1)
    }
}

/// `s` cut at every occurrence of the non-empty `p` (as `str::split` does).
pub open spec fn split(s: Seq<char>, p: Seq<char>) -> Seq<Seq<char>> {
    split_from(s, p, 0, 0)
}

/// The first index at or after `i` where `p` occurs in `s`.
pub open spec fn find_from(s: Seq<char>, p: Seq<char>, i: int) -> Option<int>
    decreases s.len() - i,
{
    if i < 0 || i >= s.len() || i + p.len() > s.len() {
        None
    } else if occurs_at(s, p, i) {
        Some(i)
    } else {
        find_from(s, p, i + 1)
    }
}

/// `s` cut at the first occurrence of `p`, if there is one.
pub open spec fn split_once(s: Seq<char>, p: Seq<char>) -> Option<(Seq<char>, Seq<char>)> {
    match find_from(s, p, 0) {
        Some(i) => Some((s.subrange(0, i), s.subrange(i + p.len(), s.len() as int))),
        None => None,
    }
}

/// `s` without every trailing repetition of the non-empty `p`.
pub open spec fn trim_end(s: Seq<char>, p: Seq<char>) -> Seq<char>
    decreases s.len(),
{
    if p.len() > 0 && ends_with(s, p) {
        trim_end(s.subrange(0, s.len() - p.len()), p)
    } else {
        s
    }
}

/// All the pieces joined in order.
pub open spec fn concat_all(ss: Seq<Seq<char>>) -> Seq<char>
    decreases ss.len(),
{
    if ss.len() == 0 {
        Seq::empty()
    } else {
        concat_all(ss.drop_last()) + ss.last()
    }
}

/// `s` with every occurrence of `p` taken out (as `str::replace(p, "")` does).
pub open spec fn remove_all(s: Seq<char>, p: Seq<char>) -> Seq<char> {
    concat_all(split(s, p))
}

/// The pieces of `s[start..]` cut at every character equal to `a` or `b`; the scan
/// has reached `i`.
pub open spec fn split_chars_from(s: Seq<char>, a: char, b: char, start: int, i: int) -> Seq<
    Seq<char>,
>
    decreases s.len() - i,
{
    if i < start || i >= s.len() {
        seq![s.subrange(start, s.len() as int)]
    } else if s[i] == a || s[i] == b {
        seq![s.subrange(start, i)] + split_chars_from(s, a, b, i + 1, i + 1)
    } else {
        split_chars_from(s, a, b, start, i + 1)
    }
}

/// `s` cut at every character equal to `a` or `b`.
pub open spec fn split_chars(s: Seq<char>, a: char, b: char) -> Seq<Seq<char>> {
    split_chars_from(s, a, b, 0, 0)
}

/// The lower-case form of `s`, as Unicode's case mapping gives it.
pub uninterp spec fn lower_of(s: Seq<char>) -> Seq<char>;

/// Every character of `s` is ASCII.
pub open spec fn all_ascii(s: Seq<char>) -> bool {
    forall|i: int| 0 <= i < s.len() ==> (#[trigger] s[i] as u32) < 128
}

/// `s` with each ASCII upper-case letter replaced by its lower-case letter.
pub open spec fn ascii_lowered(s: Seq<char>) -> Seq<char> {
    Seq::new(
        s.len(),
        |i: int|
            if 'A' <= s[i] <= 'Z' {
                ((s[i] as u8) + 32) as char
            } else {
                s[i]
            },
    )
}

/// `s` begins with `p` once both are in lower case.
pub open spec fn starts_with_folded(s: Seq<char>, p: Seq<char>) -> bool {
    starts_with(lower_of(s), lower_of(p))
}

/// Relies on `str::to_lowercase`: the lower-case form of the text, which depends on
/// the characters alone; on ASCII text it lowers exactly the letters `A` to `Z`.
#[verifier::external_body]
pub(crate) fn lowercase(s: &str) -> (r: String)
    ensures
        r@ == lower_of(s@),
        all_ascii(s@) ==> r@ == ascii_lowered(s@),
{
    s.to_lowercase()
}

/// The characters of `s`, one per element.
pub fn chars_of(s: &str) -> (r: Vec<char>)
    ensures
        r@ == s@,
{
    let mut r: Vec<char> = Vec::new();
    for c in it: s.chars()
        invariant
            r@ == it.seq().take(it.index() as int),
    {
        r.push(c);
    }
    r
}

/// The text of `s[from..to]` as an owned string.
pub fn piece(s: &str, from: usize, to: usize) -> (r: String)
    requires
        from <= to <= s@.len(),
    ensures
        r@ == s@.subrange(from as int, to as int),
{
    s.substring_char(from, to).to_owned()
}

/// Whether `p` occurs in `s` at `i`.
pub fn occurs_at_exec(s: &Vec<char>, p: &Vec<char>, i: usize) -> (r: bool)
    ensures
        r == occurs_at(s@, p@, i as int),
{
    if i > s.len() || p.len() > s.len() - i {
        return false;
    }
    let n = s.len();
    let mut j: usize = 0;
    while j < p.len()
        invariant
            n == s@.len(),
            i + p@.len() <= s@.len(),
            i <= s@.len(),
            j <= p@.len(),
            forall|k: int| 0 <= k < j ==> s@[i + k] == p@[k],
        decreases p@.len() - j,
    {
        if s[i + j] != p[j] {
            assert(s@.subrange(i as int, i + p@.len())[j as int] != p@[j as int]);
            return false;
        }
        j = j + 1;
    }
    assert(s@.subrange(i as int, i + p@.len()) =~= p@);
    true
}

/// Whether `p` occurs anywhere in `s`.
pub fn contains_exec(s: &Vec<char>, p: &Vec<char>) -> (r: bool)
    ensures
        r == contains(s@, p@),
{
    if p.len() > s.len() {
        assert forall|i: int| !occurs_at(s@, p@, i) by {}
        return false;
    }
    if p.len() == 0 {
        assert(s@.subrange(0, 0) =~= p@);
        assert(occurs_at(s@, p@, 0));
        return true;
    }
    let mut i: usize = 0;
    while i <= s.len() && p.len() <= s.len() - i
        invariant
            0 < p@.len() <= s@.len(),
            i <= s@.len(),
            forall|k: int| 0 <= k < i ==> !occurs_at(s@, p@, k),
        decreases s@.len() - i,
    {
        if occurs_at_exec(s, p, i) {
            return true;
        }
        i = i + 1;
    }
    assert forall|k: int| !occurs_at(s@, p@, k) by {
        if 0 <= k < i {
        }
    }
    false
}

/// Whether `s` begins with `p`.
pub fn starts_with_exec(s: &str, p: &str) -> (r: bool)
    ensures
        r == starts_with(s@, p@),
{
    let x = chars_of(s);
    let y = chars_of(p);
    occurs_at_exec(&x, &y, 0)
}

/// `s` cut at every character equal to `a` or `b`.
pub fn split_chars_str(s: &str, a: char, b: char) -> (r: Vec<String>)
    ensures
        r.deep_view() == split_chars(s@, a, b),
{
    let cs = chars_of(s);
    let n = cs.len();
    let mut r: Vec<String> = Vec::new();
    let mut start: usize = 0;
    let mut i: usize = 0;
    while i < n
        invariant
            cs@ == s@,
            n == s@.len(),
            start <= i <= n,
            r.deep_view() + split_chars_from(s@, a, b, start as int, i as int) == split_chars(
                s@,
                a,
                b,
            ),
        decreases n - i,
    {
        if cs[i] == a || cs[i] == b {
            let ghost before = r.deep_view();
            let x = piece(s, start, i);
            r.push(x);
            assert(r.deep_view() =~= before.push(s@.subrange(start as int, i as int)));
            assert(r.deep_view() + split_chars_from(s@, a, b, (i + 1) as int, (i + 1) as int)
                =~= before + split_chars_from(s@, a, b, start as int, i as int));
            i = i + 1;
            start = i;
        } else {
            i = i + 1;
        }
    }
    let ghost before = r.deep_view();
    let x = piece(s, start, n);
    r.push(x);
    assert(r.deep_view() =~= before + split_chars_from(s@, a, b, start as int, i as int));
    r
}

/// The first index where `p` occurs in `s`.
pub fn find_exec(s: &Vec<char>, p: &Vec<char>) -> (r: Option<usize>)
    ensures
        r is Some <==> find_from(s@, p@, 0) is Some,
        r is Some ==> r->0 as int == find_from(s@, p@, 0)->0,
        r is Some ==> occurs_at(s@, p@, r->0 as int),
{
    let n = s.len();
    let m = p.len();
    let mut i: usize = 0;
    while i < n && m <= n - i
        invariant
            n == s@.len(),
            m == p@.len(),
            i <= n,
            find_from(s@, p@, 0) == find_from(s@, p@, i as int),
        decreases n - i,
    {
        if occurs_at_exec(s, p, i) {
            return Some(i);
        }
        i = i + 1;
    }
    None
}

/// `s` cut at the first occurrence of `p`, if there is one.
pub fn split_once_str(s: &str, p: &str) -> (r: Option<(String, String)>)
    ensures
        r is Some <==> split_once(s@, p@) is Some,
        r is Some ==> {
            let (a, b) = r->0;
            let (x, y) = split_once(s@, p@)->0;
            a@ == x && b@ == y
        },
{
    let cs = chars_of(s);
    let ps = chars_of(p);
    match find_exec(&cs, &ps) {
        Some(i) => {
            let n = cs.len();
            let a = piece(s, 0, i);
            let b = piece(s, i + ps.len(), n);
            Some((a, b))
        },
        None => None,
    }
}

/// `s` without every trailing repetition of the non-empty `p`.
pub fn trim_end_str(s: &str, p: &str) -> (r: String)
    ensures
        r@ == trim_end(s@, p@),
{
    let cs = chars_of(s);
    let ps = chars_of(p);
    let m = ps.len();
    let mut end: usize = cs.len();
    if m == 0 {
        return piece(s, 0, end);
    }
    assert(s@.subrange(0, end as int) =~= s@);
    while end >= m && occurs_at_exec(&cs, &ps, end - m)
        invariant
            cs@ == s@,
            ps@ == p@,
            m == p@.len(),
            m > 0,
            end <= s@.len(),
            trim_end(s@, p@) == trim_end(s@.subrange(0, end as int), p@),
        decreases end,
    {
        let ghost t = s@.subrange(0, end as int);
        assert(t.subrange(t.len() - m, t.len() as int) =~= s@.subrange(end - m, end as int));
        assert(t.subrange(0, t.len() - m) =~= s@.subrange(0, end - m));
        end = end - m;
    }
    let ghost t = s@.subrange(0, end as int);
    if end >= m {
        assert(t.subrange(t.len() - m, t.len() as int) =~= s@.subrange(end - m, end as int));
    }
    piece(s, 0, end)
}

/// All the pieces joined in order.
pub fn concat_strings(v: &Vec<String>) -> (r: String)
    ensures
        r@ == concat_all(v.deep_view()),
{
    let mut r = String::new();
    let mut i: usize = 0;
    while i < v.len()
        invariant
            i <= v.len(),
            r@ == concat_all(v.deep_view().take(i as int)),
        decreases v.len() - i,
    {
        let ghost d = v.deep_view().take(i + 1);
        assert(d.drop_last() =~= v.deep_view().take(i as int));
        r.append(v[i].as_str());
        i = i + 1;
    }
    assert(v.deep_view().take(v.len() as int) =~= v.deep_view());
    r
}

/// `s` with every occurrence of the non-empty `p` taken out.
pub fn remove_all_str(s: &str, p: &str) -> (r: String)
    requires
        p@.len() > 0,
    ensures
        r@ == remove_all(s@, p@),
{
    let pieces = split_str(s, p);
    concat_strings(&pieces)
}

/// Whether `a` and `b` hold the same characters.
pub fn same_text(a: &str, b: &str) -> (r: bool)
    ensures
        r == (a@ == b@),
{
    let x = chars_of(a);
    let y = chars_of(b);
    if x.len() != y.len() {
        return false;
    }
    let r = occurs_at_exec(&x, &y, 0);
    assert(x@ =~= x@.subrange(0, y@.len() as int));
    r
}

/// `s` cut at every occurrence of the non-empty `p`.
pub fn split_str(s: &str, p: &str) -> (r: Vec<String>)
    requires
        p@.len() > 0,
    ensures
        r.deep_view() == split(s@, p@),
{
    let cs = chars_of(s);
    let ps = chars_of(p);
    let n = cs.len();
    let m = ps.len();
    let mut r: Vec<String> = Vec::new();
    let mut start: usize = 0;
    let mut i: usize = 0;
    while i <= n && m <= n - i
        invariant
            cs@ == s@,
            ps@ == p@,
            n == s@.len(),
            m == p@.len(),
            m > 0,
            start <= i <= n,
            r.deep_view() + split_from(s@, p@, start as int, i as int) == split(s@, p@),
        decreases n - i,
    {
        if occurs_at_exec(&cs, &ps, i) {
            let ghost before = r.deep_view();
            let x = piece(s, start, i);
            r.push(x);
            assert(r.deep_view() =~= before.push(s@.subrange(start as int, i as int)));
            assert(r.deep_view() + split_from(s@, p@, (i + m) as int, (i + m) as int) =~= before
                + split_from(s@, p@, start as int, i as int));
            i = i + m;
            start = i;
        } else {
            i = i + 1;
        }
    }
    let ghost before = r.deep_view();
    let x = piece(s, start, n);
    r.push(x);
    assert(r.deep_view() =~= before + split_from(s@, p@, start as int, i as int));
    r
}

/// The pieces joined in order, `sep` between each two.
pub open spec fn join(ss: Seq<Seq<char>>, sep: Seq<char>) -> Seq<char>
    decreases ss.len(),
{
    if ss.len() == 0 {
        Seq::empty()
    } else if ss.len() == 1 {
        ss[0]
    } else {
        join(ss.drop_last(), sep) + sep + ss.last()
    }
}

/// `s` with every occurrence of the non-empty `p` replaced by `q`.
pub open spec fn replace_all(s: Seq<char>, p: Seq<char>, q: Seq<char>) -> Seq<char> {
    join(split(s, p), q)
}

/// `s` without every leading repetition of the non-empty `p`.
pub open spec fn trim_start(s: Seq<char>, p: Seq<char>) -> Seq<char>
    decreases s.len(),
{
    if p.len() > 0 && starts_with(s, p) {
        trim_start(s.subrange(p.len() as int, s.len() as int), p)
    } else {
        s
    }
}

/// The pieces joined in order, `sep` between each two.
pub fn join_strings(v: &Vec<String>, sep: &str) -> (r: String)
    ensures
        r@ == join(v.deep_view(), sep@),
{
    let mut r = String::new();
    let mut i: usize = 0;
    while i < v.len()
        invariant
            i <= v.len(),
            r@ == join(v.deep_view().take(i as int), sep@),
        decreases v.len() - i,
    {
        let ghost d = v.deep_view().take(i + 1);
        assert(d.drop_last() =~= v.deep_view().take(i as int));
        if i > 0 {
            r.append(sep);
        } else {
            assert(r@ + v[0]@ =~= v[0]@);
        }
        r.append(v[i].as_str());
        i = i + 1;
    }
    assert(v.deep_view().take(v.len() as int) =~= v.deep_view());
    r
}

/// `s` with every occurrence of the non-empty `p` replaced by `q`.
pub fn replace_all_str(s: &str, p: &str, q: &str) -> (r: String)
    requires
        p@.len() > 0,
    ensures
        r@ == replace_all(s@, p@, q@),
{
    let pieces = split_str(s, p);
    join_strings(&pieces, q)
}

/// `s` without every leading repetition of the non-empty `p`.
pub fn trim_start_str(s: &str, p: &str) -> (r: String)
    ensures
        r@ == trim_start(s@, p@),
{
    let cs = chars_of(s);
    let ps = chars_of(p);
    let n = cs.len();
    let m = ps.len();
    let mut start: usize = 0;
    if m == 0 {
        return piece(s, 0, n);
    }
    assert(s@.subrange(0, n as int) =~= s@);
    while start <= n && m <= n - start && occurs_at_exec(&cs, &ps, start)
        invariant
            cs@ == s@,
            ps@ == p@,
            n == s@.len(),
            m == p@.len(),
            m > 0,
            start <= n,
            trim_start(s@, p@) == trim_start(s@.subrange(start as int, n as int), p@),
        decreases n - start,
    {
        let ghost t = s@.subrange(start as int, n as int);
        assert(t.subrange(0, m as int) =~= s@.subrange(start as int, start + m));
        assert(t.subrange(m as int, t.len() as int) =~= s@.subrange(start + m, n as int));
        start = start + m;
    }
    let ghost t = s@.subrange(start as int, n as int);
    if m <= n - start {
        assert(t.subrange(0, m as int) =~= s@.subrange(start as int, start + m));
    }
    piece(s, start, n)
}

/// The decimal digit that writes `d`, for `d` below ten.
pub open spec fn digit_char(d: int) -> char {
    if d == 0 {
        '0'
    } else if d == 1 {
        '1'
    } else if d == 2 {
        '2'
    } else if d == 3 {
        '3'
    } else if d == 4 {
        '4'
    } else if d == 5 {
        '5'
    } else if d == 6 {
        '6'
    } else if d == 7 {
        '7'
    } else if d == 8 {
        '8'
    } else {
        '9'
    }
}

/// `n` written in decimal, without leading zeros.
pub open spec fn decimal_text(n: nat) -> Seq<char>
    decreases n,
{
    if n < 10 {
        seq![digit_char(n as int)]
    } else {
        decimal_text(n / 10) + seq![digit_char((n % 10) as int)]
    }
}

/// The decimal digit that writes `d`.
fn digit_str(d: u64) -> (r: &'static str)
    requires
        d < 10,
    ensures
        r@ == seq![digit_char(d as int)],
{
    proof {
        reveal_strlit("0");
        reveal_strlit("1");
        reveal_strlit("2");
        reveal_strlit("3");
        reveal_strlit("4");
        reveal_strlit("5");
        reveal_strlit("6");
        reveal_strlit("7");
        reveal_strlit("8");
        reveal_strlit("9");
    }
    match d {
        0 => "0",
        1 => "1",
        2 => "2",
        3 => "3",
        4 => "4",
        5 => "5",
        6 => "6",
        7 => "7",
        8 => "8",
        _ => "9",
    }
}

/// Appends `n`, written in decimal, to `out`.
pub fn write_decimal(n: u64, out: &mut String)
    ensures
        final(out)@ == old(out)@ + decimal_text(n as nat),
    decreases n,
{
    if n >= 10 {
        write_decimal(n / 10, out);
    }
    out.append(digit_str(n % 10));
    proof {
        if n >= 10 {
            assert(decimal_text(n as nat) == decimal_text((n / 10) as nat) + seq![digit_char((n % 10) as int)]);
        }
    }
}

/// The scan of a text without `p`, from `i` on, gives the rest of the text whole.
proof fn lemma_split_from_no_match(s: Seq<char>, p: Seq<char>, start: int, i: int)
    requires
        p.len() > 0,
        0 <= start <= i <= s.len(),
        !contains(s, p),
    ensures
        split_from(s, p, start, i) == seq![s.subrange(start, s.len() as int)],
    decreases s.len() - i,
{
    if i + p.len() <= s.len() {
        assert(!occurs_at(s, p, i));
        lemma_split_from_no_match(s, p, start, i + 1);
    }
}

/// The scan of `t` from `off + start`, `off + i` is that of `t[off..]` from `start`, `i`.
proof fn lemma_split_from_shift(t: Seq<char>, p: Seq<char>, off: int, start: int, i: int)
    requires
        p.len() > 0,
        0 <= off <= t.len(),
        0 <= start <= i <= t.len() - off,
    ensures
        split_from(t, p, off + start, off + i) == split_from(
            t.subrange(off, t.len() as int),
            p,
            start,
            i,
        ),
    decreases t.len() - off - i,
{
    let u = t.subrange(off, t.len() as int);
    if i + p.len() <= u.len() {
        assert(t.subrange(off + i, off + i + p.len()) =~= u.subrange(i, i + p.len()));
        assert(t.subrange(off + start, off + i) =~= u.subrange(start, i));
        if occurs_at(u, p, i) {
            lemma_split_from_shift(t, p, off, i + p.len(), i + p.len());
        } else {
            lemma_split_from_shift(t, p, off, start, i + 1);
        }
    } else {
        assert(t.subrange(off + start, t.len() as int) =~= u.subrange(start, u.len() as int));
    }
}

/// Where `p` does not occur before `a.len()` in `t` but does at `a.len()`, the first
/// piece of `t` is `a`.
proof fn lemma_split_from_first_piece(t: Seq<char>, p: Seq<char>, a: Seq<char>, i: int)
    requires
        p.len() > 0,
        0 <= i <= a.len(),
        a.len() + p.len() <= t.len(),
        t.subrange(0, a.len() as int) == a,
        occurs_at(t, p, a.len() as int),
        forall|j: int| 0 <= j < a.len() ==> !occurs_at(t, p, j),
    ensures
        split_from(t, p, 0, i) == seq![a] + split_from(
            t,
            p,
            (a.len() + p.len()) as int,
            (a.len() + p.len()) as int,
        ),
    decreases a.len() - i,
{
    if i < a.len() {
        assert(!occurs_at(t, p, i));
        lemma_split_from_first_piece(t, p, a, i + 1);
    }
}

/// Joining with a separator puts the first piece, the separator, then the rest.
proof fn lemma_join_front(ss: Seq<Seq<char>>, sep: Seq<char>)
    requires
        ss.len() >= 2,
    ensures
        join(ss, sep) == ss[0] + sep + join(ss.subrange(1, ss.len() as int), sep),
    decreases ss.len(),
{
    let rest = ss.subrange(1, ss.len() as int);
    if ss.len() == 2 {
        assert(ss.drop_last().len() == 1);
        assert(rest.len() == 1);
        assert(join(rest, sep) == rest[0]);
        assert(join(ss.drop_last(), sep) == ss[0]);
    } else {
        lemma_join_front(ss.drop_last(), sep);
        assert(ss.drop_last().subrange(1, ss.len() - 1) =~= rest.drop_last());
        assert(rest.last() == ss.last());
        assert(join(rest, sep) == join(rest.drop_last(), sep) + sep + rest.last());
        assert(join(ss, sep) == join(ss.drop_last(), sep) + sep + ss.last());
        assert(ss[0] + sep + join(rest.drop_last(), sep) + sep + ss.last() =~= ss[0] + sep + (
        join(rest.drop_last(), sep) + sep + rest.last()));
    }
}

/// Cutting at CRLF what was joined with CRLF gives back the lines, where no line holds
/// CRLF.
pub proof fn lemma_split_join_lines(lines: Seq<Seq<char>>)
    requires
        lines.len() > 0,
        forall|i: int| 0 <= i < lines.len() ==> !contains(#[trigger] lines[i], "\r\n"@),
    ensures
        split(join(lines, "\r\n"@), "\r\n"@) == lines,
    decreases lines.len(),
{
    reveal_strlit("\r\n");
    let c = "\r\n"@;
    let t = join(lines, c);
    if lines.len() == 1 {
        assert(t == lines[0]);
        lemma_split_from_no_match(t, c, 0, 0);
        assert(t.subrange(0, t.len() as int) =~= t);
        assert(seq![t] =~= lines);
    } else {
        let a = lines[0];
        let rest = lines.subrange(1, lines.len() as int);
        lemma_join_front(lines, c);
        let u = join(rest, c);
        assert(t == a + c + u);
        assert(t.subrange(0, a.len() as int) =~= a);
        assert(t.subrange(a.len() as int, (a.len() + 2) as int) =~= c);
        assert(forall|j: int| 0 <= j < a.len() ==> !occurs_at(t, c, j)) by {
            assert forall|j: int| 0 <= j < a.len() implies !occurs_at(t, c, j) by {
                if occurs_at(t, c, j) {
                    if j + 2 <= a.len() {
                        assert(a.subrange(j, j + 2) =~= t.subrange(j, j + 2));
                        assert(occurs_at(a, c, j));
                    } else {
                        assert(t[j + 1] == c[0]);
                        assert(t.subrange(j, j + 2)[1] == c[1]);
                    }
                }
            }
        }
        lemma_split_from_first_piece(t, c, a, 0);
        lemma_split_from_shift(t, c, (a.len() + 2) as int, 0, 0);
        assert(t.subrange((a.len() + 2) as int, t.len() as int) =~= u);
        assert forall|i: int| 0 <= i < rest.len() implies !contains(#[trigger] rest[i], c) by {
            assert(rest[i] == lines[i + 1]);
        }
        lemma_split_join_lines(rest);
        assert(seq![a] + rest =~= lines);
    }
}

} // verus!
