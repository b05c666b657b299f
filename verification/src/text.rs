//! Text helpers: decimal numbers, trimming, searching and joining.
//!
//! Every function works on the characters of a string (its view), so that the
//! contracts of the modules above can speak of the exact text they produce.

use vstd::prelude::*;

verus! {

/// `String::push` appends one character.
pub assume_specification[ String::push ](s: &mut String, c: char)
    ensures
        final(s)@ == old(s)@.push(c),
;

/// The view of an optional text.
pub open spec fn opt(o: Option<String>) -> Option<Seq<char>> {
    match o {
        Some(s) => Some(s@),
        None => None,
    }
}

/// The view of an optional borrowed text.
pub open spec fn opt_str(o: Option<&str>) -> Option<Seq<char>> {
    match o {
        Some(s) => Some(s@),
        None => None,
    }
}

/// The characters of `s`, one by one.
pub fn chars_of(s: &str) -> (v: Vec<char>)
    ensures
        v@ == s@,
{
    let mut v: Vec<char> = Vec::new();
    for c in it: s.chars()
        invariant
            it.seq() == s@,
            v@ == s@.take(it.index() as int),
    {
        v.push(c);
        assert(s@.take(it.index() + 1) =~= s@.take(it.index() as int).push(c));
    }
    assert(s@.take(s@.len() as int) =~= s@);
    v
}

/// The text made of the characters `v[from..to]`.
pub fn text_of(v: &Vec<char>, from: usize, to: usize) -> (s: String)
    requires
        from <= to <= v@.len(),
    ensures
        s@ == v@.subrange(from as int, to as int),
{
    let mut s = String::new();
    let mut i: usize = from;
    while i < to
        invariant
            from <= i <= to <= v@.len(),
            s@ == v@.subrange(from as int, i as int),
        decreases to - i,
    {
        s.push(v[i]);
        i = i + 1;
        assert(v@.subrange(from as int, i as int) =~= v@.subrange(from as int, i - 1).push(
            v@[i - 1],
        ));
    }
    s
}

/// Whether two texts have the same characters.
pub fn same(a: &str, b: &str) -> (r: bool)
    ensures
        r == (a@ == b@),
{
    a.to_owned() == b.to_owned()
}

/// The decimal digits of `n`, most significant first, without leading zeros.
#[verifier::opaque]
pub open spec fn dec(n: nat) -> Seq<char>
    decreases n,
{
    if n < 10 {
        seq![digit(n)]
    } else {
        dec(n / 10).push(digit(n % 10))
    }
}

/// The character of one decimal digit.
pub open spec fn digit(d: nat) -> char {
    (('0' as u32) + d) as char
}

fn digit_char(d: u8) -> (c: char)
    requires
        d < 10,
    ensures
        c == digit(d as nat),
{
    (48u8 + d) as char
}

/// Appends `n` in decimal.
pub fn push_dec(s: &mut String, n: u64)
    ensures
        final(s)@ == old(s)@ + dec(n as nat),
    decreases n,
{
    proof {
        reveal_with_fuel(dec, 2);
    }
    if n >= 10 {
        push_dec(s, n / 10);
    }
    s.push(digit_char((n % 10) as u8));
    assert(s@ =~= old(s)@ + dec(n as nat));
}

/// The characters that `trim` functions take off.
#[derive(Clone, Copy, PartialEq, Eq, Structural)]
pub enum Blank {
    /// The characters with the Unicode property `White_Space`.
    White,
    /// The path and address separator `/`.
    Slash,
}

/// Whether `c` has the Unicode property `White_Space`.
pub open spec fn is_white(c: char) -> bool {
    ||| 0x9 <= c as u32 <= 0xd
    ||| c as u32 == 0x20
    ||| c as u32 == 0x85
    ||| c as u32 == 0xa0
    ||| c as u32 == 0x1680
    ||| 0x2000 <= c as u32 <= 0x200a
    ||| c as u32 == 0x2028
    ||| c as u32 == 0x2029
    ||| c as u32 == 0x202f
    ||| c as u32 == 0x205f
    ||| c as u32 == 0x3000
}

impl Blank {
    pub open spec fn has(self, c: char) -> bool {
        match self {
            Blank::White => is_white(c),
            Blank::Slash => c == '/',
        }
    }

    fn test(self, c: char) -> (r: bool)
        ensures
            r == self.has(c),
    {
        match self {
            Blank::White => {
                let n: u32 = c as u32;
                (0x9 <= n && n <= 0xd) || n == 0x20 || n == 0x85 || n == 0xa0 || n == 0x1680 || (
                0x2000 <= n && n <= 0x200a) || n == 0x2028 || n == 0x2029 || n == 0x202f || n
                    == 0x205f || n == 0x3000
            },
            Blank::Slash => c == '/',
        }
    }
}

/// `s` without the blanks at its start.
pub open spec fn drop_leading(s: Seq<char>, k: Blank) -> Seq<char>
    decreases s.len(),
{
    if s.len() > 0 && k.has(s[0]) {
        drop_leading(s.drop_first(), k)
    } else {
        s
    }
}

/// `s` without the blanks at its end.
pub open spec fn drop_trailing(s: Seq<char>, k: Blank) -> Seq<char>
    decreases s.len(),
{
    if s.len() > 0 && k.has(s.last()) {
        drop_trailing(s.drop_last(), k)
    } else {
        s
    }
}

/// `s` without the white space at both ends.
pub open spec fn trimmed(s: Seq<char>) -> Seq<char> {
    drop_trailing(drop_leading(s, Blank::White), Blank::White)
}

fn leading_end(v: &Vec<char>, k: Blank) -> (i: usize)
    ensures
        i <= v@.len(),
        drop_leading(v@, k) == v@.skip(i as int),
{
    let mut i: usize = 0;
    assert(v@.skip(0) =~= v@);
    while i < v.len() && k.test(v[i])
        invariant
            i <= v@.len(),
            drop_leading(v@, k) == drop_leading(v@.skip(i as int), k),
        decreases v@.len() - i,
    {
        assert(v@.skip(i as int).drop_first() =~= v@.skip(i + 1));
        i = i + 1;
    }
    i
}

fn trailing_start(v: &Vec<char>, from: usize, k: Blank) -> (j: usize)
    requires
        from <= v@.len(),
    ensures
        from <= j <= v@.len(),
        drop_trailing(v@.skip(from as int), k) == v@.subrange(from as int, j as int),
{
    let mut j: usize = v.len();
    assert(v@.skip(from as int) =~= v@.subrange(from as int, j as int));
    while j > from && k.test(v[j - 1])
        invariant
            from <= j <= v@.len(),
            drop_trailing(v@.skip(from as int), k) == drop_trailing(
                v@.subrange(from as int, j as int),
                k,
            ),
        decreases j,
    {
        assert(v@.subrange(from as int, j as int).drop_last() =~= v@.subrange(
            from as int,
            j - 1,
        ));
        j = j - 1;
    }
    j
}

/// Takes the white space off both ends.
pub fn trim(s: &str) -> (r: String)
    ensures
        r@ == trimmed(s@),
{
    let v = chars_of(s);
    let i = leading_end(&v, Blank::White);
    let j = trailing_start(&v, i, Blank::White);
    text_of(&v, i, j)
}

/// Takes the `/` off the start.
pub fn trim_start_slashes(s: &str) -> (r: String)
    ensures
        r@ == drop_leading(s@, Blank::Slash),
{
    let v = chars_of(s);
    let i = leading_end(&v, Blank::Slash);
    assert(v@.skip(i as int) =~= v@.subrange(i as int, v@.len() as int));
    let n: usize = v.len();
    text_of(&v, i, n)
}

/// Takes the `/` off the end.
pub fn trim_end_slashes(s: &str) -> (r: String)
    ensures
        r@ == drop_trailing(s@, Blank::Slash),
{
    let v = chars_of(s);
    assert(v@.skip(0) =~= v@);
    let j = trailing_start(&v, 0, Blank::Slash);
    text_of(&v, 0, j)
}

/// Whether `pat` stands in `s` from position `i` on.
pub open spec fn occurs_at(s: Seq<char>, pat: Seq<char>, i: int) -> bool {
    0 <= i && i + pat.len() <= s.len() && s.subrange(i, i + pat.len()) == pat
}

/// Whether `pat` stands anywhere in `s`.
pub open spec fn has_text(s: Seq<char>, pat: Seq<char>) -> bool {
    exists|i: int| occurs_at(s, pat, i)
}

fn matches_at(v: &Vec<char>, pat: &Vec<char>, i: usize) -> (r: bool)
    requires
        i <= v@.len(),
    ensures
        r == occurs_at(v@, pat@, i as int),
{
    let n: usize = v.len();
    if n - i < pat.len() {
        return false;
    }
    let mut k: usize = 0;
    while k < pat.len()
        invariant
            k <= pat@.len(),
            n == v@.len(),
            i + pat@.len() <= n,
            forall|j: int| 0 <= j < k ==> v@[i + j] == pat@[j],
        decreases pat@.len() - k,
    {
        if v[i + k] != pat[k] {
            assert(v@.subrange(i as int, i + pat@.len())[k as int] != pat@[k as int]);
            return false;
        }
        k = k + 1;
    }
    assert(v@.subrange(i as int, i + pat@.len()) =~= pat@);
    true
}

/// Whether `pat` stands anywhere in `s`.
pub fn contains(s: &str, pat: &str) -> (r: bool)
    ensures
        r == has_text(s@, pat@),
{
    let v = chars_of(s);
    let p = chars_of(pat);
    let mut i: usize = 0;
    loop
        invariant
            i <= v@.len(),
            v@ == s@,
            p@ == pat@,
            forall|j: int| 0 <= j < i ==> !occurs_at(v@, p@, j),
        decreases v@.len() - i,
    {
        if matches_at(&v, &p, i) {
            return true;
        }
        if i >= v.len() {
            return false;
        }
        i = i + 1;
    }
}

/// Whether `s` starts with `pat`.
pub fn starts_with(s: &str, pat: &str) -> (r: bool)
    ensures
        r == occurs_at(s@, pat@, 0),
{
    let v = chars_of(s);
    let p = chars_of(pat);
    matches_at(&v, &p, 0)
}

/// `s` from position `from` on, with every `pat`, taken from left to right
/// without overlap, replaced by `with`.
pub open spec fn replaced_from(s: Seq<char>, pat: Seq<char>, with: Seq<char>, from: int) -> Seq<
    char,
>
    decreases s.len() - from,
{
    if from < 0 || from >= s.len() || pat.len() == 0 {
        if 0 <= from <= s.len() {
            s.skip(from)
        } else {
            Seq::empty()
        }
    } else if occurs_at(s, pat, from) {
        with + replaced_from(s, pat, with, from + pat.len())
    } else {
        seq![s[from]] + replaced_from(s, pat, with, from + 1)
    }
}

/// Replaces every `pat`, taken from left to right without overlap, by `with`.
pub fn replace(s: &str, pat: &str, with: &str) -> (r: String)
    requires
        pat@.len() > 0,
    ensures
        r@ == replaced_from(s@, pat@, with@, 0),
{
    let v = chars_of(s);
    let p = chars_of(pat);
    let mut out = String::new();
    let mut i: usize = 0;
    while i < v.len()
        invariant
            i <= v@.len(),
            v@ == s@,
            p@ == pat@,
            p@.len() > 0,
            replaced_from(s@, pat@, with@, 0) == out@ + replaced_from(s@, pat@, with@, i as int),
        decreases v@.len() - i,
    {
        let ghost before = out@;
        if matches_at(&v, &p, i) {
            out.append(with);
            i = i + p.len();
            assert(before + (with@ + replaced_from(s@, pat@, with@, i as int)) =~= out@
                + replaced_from(s@, pat@, with@, i as int));
        } else {
            out.push(v[i]);
            i = i + 1;
            assert(before + (seq![v@[i - 1]] + replaced_from(s@, pat@, with@, i as int)) =~= out@
                + replaced_from(s@, pat@, with@, i as int));
        }
    }
    assert(replaced_from(s@, pat@, with@, i as int) =~= Seq::<char>::empty());
    assert(out@ + Seq::<char>::empty() =~= out@);
    out
}

/// One ASCII capital letter made small; any other character as it is.
pub open spec fn lower_char(c: char) -> char {
    if 'A' <= c <= 'Z' {
        ((c as u32) + 32) as char
    } else {
        c
    }
}

/// `s` with its ASCII capital letters made small.
pub open spec fn lower(s: Seq<char>) -> Seq<char> {
    s.map_values(|c: char| lower_char(c))
}

fn lower_one(c: char) -> (r: char)
    ensures
        r == lower_char(c),
{
    if 'A' <= c && c <= 'Z' {
        ((c as u8) + 32u8) as char
    } else {
        c
    }
}

/// Makes the ASCII capital letters small.
pub fn ascii_lower(s: &str) -> (r: String)
    ensures
        r@ == lower(s@),
{
    let v = chars_of(s);
    let mut out = String::new();
    let mut i: usize = 0;
    while i < v.len()
        invariant
            i <= v@.len(),
            v@ == s@,
            out@ == lower(s@.take(i as int)),
        decreases v@.len() - i,
    {
        out.push(lower_one(v[i]));
        i = i + 1;
        assert(out@ =~= lower(s@.take(i as int)));
    }
    assert(s@.take(i as int) =~= s@);
    out
}

/// The path that `rel` names from `base`: below it, or `rel` itself where that
/// starts at the root.
pub open spec fn joined(base: Seq<char>, rel: Seq<char>) -> Seq<char> {
    if rel.len() > 0 && rel[0] == '/' {
        rel
    } else if base.len() == 0 || base.last() == '/' {
        base + rel
    } else {
        base.push('/') + rel
    }
}

/// The path that `rel` names from `base`.
pub fn join(base: &str, rel: &str) -> (r: String)
    ensures
        r@ == joined(base@, rel@),
{
    let v = chars_of(base);
    let w = chars_of(rel);
    if w.len() > 0 && w[0] == '/' {
        return rel.to_owned();
    }
    let mut out = base.to_owned();
    if v.len() > 0 && v[v.len() - 1] != '/' {
        out.push('/');
    }
    out.append(rel);
    out
}

/// A path without the separators at its end, and without the `.` that may stand
/// between them.
pub open spec fn bare_path(p: Seq<char>) -> Seq<char>
    decreases p.len(),
{
    if p.len() > 0 && p.last() == '/' {
        bare_path(p.drop_last())
    } else if p.len() > 1 && p.last() == '.' && p[p.len() - 2] == '/' {
        bare_path(p.drop_last())
    } else {
        p
    }
}

fn bare_len(v: &Vec<char>) -> (n: usize)
    ensures
        n <= v@.len(),
        bare_path(v@) == v@.take(n as int),
{
    let mut n: usize = v.len();
    assert(v@.take(n as int) =~= v@);
    while (n > 0 && v[n - 1] == '/') || (n > 1 && v[n - 1] == '.' && v[n - 2] == '/')
        invariant
            n <= v@.len(),
            bare_path(v@) == bare_path(v@.take(n as int)),
        decreases n,
    {
        assert(v@.take(n as int).drop_last() =~= v@.take(n - 1));
        n = n - 1;
    }
    n
}

/// A path without the separators at its end.
pub fn bare_text(p: &str) -> (r: String)
    ensures
        r@ == bare_path(p@),
{
    let v = chars_of(p);
    let n: usize = bare_len(&v);
    let r = text_of(&v, 0, n);
    assert(r@ =~= bare_path(p@));
    r
}

/// Baring a bare path changes nothing, and what is left is the start of the path.
pub proof fn lemma_bare_twice(p: Seq<char>)
    ensures
        bare_path(bare_path(p)) == bare_path(p),
        bare_path(p).len() > 0 ==> bare_path(p).last() != '/',
        bare_path(p).len() <= p.len(),
        bare_path(p) == p.take(bare_path(p).len() as int),
    decreases p.len(),
{
    assert(p.take(p.len() as int) =~= p);
    if p.len() > 0 && (p.last() == '/' || (p.len() > 1 && p.last() == '.' && p[p.len() - 2]
        == '/')) {
        lemma_bare_twice(p.drop_last());
        let n = bare_path(p).len() as int;
        assert(p.drop_last().take(n) =~= p.take(n));
    }
}

/// What stands behind the last `/` of a path.
pub open spec fn file_name(p: Seq<char>) -> Seq<char>
    decreases p.len(),
{
    if p.len() == 0 || p.last() == '/' {
        Seq::empty()
    } else {
        file_name(p.drop_last()).push(p.last())
    }
}

/// How many characters stand behind the last `/` of a path.
pub fn file_name_len(p: &str) -> (n: usize)
    ensures
        n == file_name(p@).len(),
        n <= p@.len(),
{
    let v = chars_of(p);
    let len: usize = v.len();
    let mut i: usize = len;
    let ghost whole = v@;
    assert(whole.take(len as int) =~= whole);
    while i > 0 && v[i - 1] != '/'
        invariant
            i <= len == v@.len(),
            whole == v@,
            file_name(whole).len() == (len - i) + file_name(whole.take(i as int)).len(),
        decreases i,
    {
        assert(whole.take(i as int).drop_last() =~= whole.take(i - 1));
        i = i - 1;
    }
    len - i
}

/// Whether `s` ends with `pat`.
pub open spec fn ends_in(s: Seq<char>, pat: Seq<char>) -> bool {
    s.len() >= pat.len() && occurs_at(s, pat, s.len() - pat.len())
}

/// Whether `s` ends with `pat`.
pub fn ends_with(s: &str, pat: &str) -> (r: bool)
    ensures
        r == ends_in(s@, pat@),
{
    let v = chars_of(s);
    let p = chars_of(pat);
    if v.len() < p.len() {
        return false;
    }
    matches_at(&v, &p, v.len() - p.len())
}

/// `a` followed by `b`.
pub fn cat2(a: &str, b: &str) -> (r: String)
    ensures
        r@ == a@ + b@,
{
    let mut out = a.to_owned();
    out.append(b);
    out
}

/// `a`, `b` and `c` in a row.
pub fn cat3(a: &str, b: &str, c: &str) -> (r: String)
    ensures
        r@ == a@ + b@ + c@,
{
    let mut out = a.to_owned();
    out.append(b);
    out.append(c);
    out
}

/// `a`, `b`, `c`, `d` and `e` in a row.
pub fn cat5(a: &str, b: &str, c: &str, d: &str, e: &str) -> (r: String)
    ensures
        r@ == a@ + b@ + c@ + d@ + e@,
{
    let mut out = cat3(a, b, c);
    out.append(d);
    out.append(e);
    out
}

/// `n` in decimal.
pub fn dec_text(n: u64) -> (r: String)
    ensures
        r@ == dec(n as nat),
{
    let mut out = String::new();
    push_dec(&mut out, n);
    assert(out@ =~= dec(n as nat));
    out
}

/// `n` in decimal, a minus sign before it where it is negative.
pub open spec fn signed(n: int) -> Seq<char> {
    if n < 0 {
        seq!['-'] + dec((-n) as nat)
    } else {
        dec(n as nat)
    }
}

/// `n` in decimal, a minus sign before it where it is negative.
pub fn signed_text(n: i64) -> (r: String)
    ensures
        r@ == signed(n as int),
{
    let mut out = String::new();
    if n < 0 {
        out.push('-');
        let rest: u64 = if n == i64::MIN {
            0x8000_0000_0000_0000
        } else {
            (-n) as u64
        };
        push_dec(&mut out, rest);
    } else {
        push_dec(&mut out, n as u64);
    }
    assert(out@ =~= signed(n as int));
    out
}

/// The two last decimal digits of `n`, which is below a hundred.
pub open spec fn two_digits(n: nat) -> Seq<char> {
    seq![digit(n / 10 % 10), digit(n % 10)]
}

/// A time as minutes and seconds, `mm:ss`; minutes above 99 take more digits.
#[verifier::opaque]
pub open spec fn clock_text(ms: nat) -> Seq<char> {
    let minutes = ms / 60_000;
    let seconds = (ms / 1_000 % 60) as nat;
    (if minutes < 100 {
        two_digits(minutes)
    } else {
        dec(minutes)
    }).push(':') + two_digits(seconds)
}

fn push_two_digits(s: &mut String, n: u64)
    ensures
        final(s)@ == old(s)@ + two_digits(n as nat),
{
    s.push(digit_char((n / 10 % 10) as u8));
    s.push(digit_char((n % 10) as u8));
    assert(s@ =~= old(s)@ + two_digits(n as nat));
}

/// A time as minutes and seconds, `mm:ss`; minutes above 99 take more digits.
pub fn format_duration_ms(ms: u64) -> (r: String)
    ensures
        r@ == clock_text(ms as nat),
{
    proof {
        reveal(clock_text);
    }
    let mut out = String::new();
    let minutes: u64 = ms / 60_000;
    if minutes < 100 {
        push_two_digits(&mut out, minutes);
    } else {
        push_dec(&mut out, minutes);
    }
    out.push(':');
    push_two_digits(&mut out, ms / 1_000 % 60);
    assert(out@ =~= clock_text(ms as nat));
    out
}

/// What stands before the first `c`; all of `s` where there is none.
pub open spec fn before(s: Seq<char>, c: char) -> Seq<char>
    decreases s.len(),
{
    if s.len() == 0 || s[0] == c {
        Seq::empty()
    } else {
        seq![s[0]] + before(s.drop_first(), c)
    }
}

/// What stands behind the last `c`; all of `s` where there is none.
pub open spec fn after_last(s: Seq<char>, c: char) -> Seq<char>
    decreases s.len(),
{
    if s.len() == 0 || s.last() == c {
        Seq::empty()
    } else {
        after_last(s.drop_last(), c).push(s.last())
    }
}

/// What stands before the first `c`; all of `s` where there is none.
pub fn text_before(s: &str, c: char) -> (r: String)
    ensures
        r@ == before(s@, c),
{
    let v = chars_of(s);
    let mut out = String::new();
    let mut i: usize = 0;
    assert(v@.skip(0) =~= v@);
    while i < v.len() && v[i] != c
        invariant
            i <= v@.len(),
            before(v@, c) == out@ + before(v@.skip(i as int), c),
        decreases v@.len() - i,
    {
        let ghost rest = v@.skip(i as int);
        let ghost so_far = out@;
        assert(rest.drop_first() =~= v@.skip(i + 1));
        out.push(v[i]);
        i = i + 1;
        assert(so_far + (seq![rest[0]] + before(v@.skip(i as int), c)) =~= out@ + before(
            v@.skip(i as int),
            c,
        ));
    }
    assert(out@ + Seq::<char>::empty() =~= out@);
    out
}

/// What stands behind the last `c`; all of `s` where there is none.
pub fn text_after_last(s: &str, c: char) -> (r: String)
    ensures
        r@ == after_last(s@, c),
{
    let v = chars_of(s);
    let len: usize = v.len();
    let mut i: usize = len;
    assert(v@.take(len as int) =~= v@);
    assert(v@.subrange(len as int, len as int) =~= Seq::<char>::empty());
    while i > 0 && v[i - 1] != c
        invariant
            i <= len == v@.len(),
            after_last(v@, c) == after_last(v@.take(i as int), c) + v@.subrange(
                i as int,
                len as int,
            ),
        decreases i,
    {
        let ghost head = v@.take(i as int);
        assert(head.drop_last() =~= v@.take(i - 1));
        i = i - 1;
        assert(after_last(v@.take(i as int), c).push(v@[i as int]) + v@.subrange(
            i + 1,
            len as int,
        ) =~= after_last(v@.take(i as int), c) + v@.subrange(i as int, len as int));
    }
    assert(Seq::<char>::empty() + v@.subrange(i as int, len as int) =~= v@.subrange(
        i as int,
        len as int,
    ));
    text_of(&v, i, len)
}

/// The number that a row of decimal digits stands for; `None` where another
/// character stands in it.
pub open spec fn digits_value(s: Seq<char>) -> Option<nat>
    decreases s.len(),
{
    if s.len() == 0 {
        Some(0)
    } else {
        match digits_value(s.drop_last()) {
            Some(n) => if '0' <= s.last() <= '9' {
                Some(n * 10 + (s.last() as u32 - '0' as u32) as nat)
            } else {
                None
            },
            None => None,
        }
    }
}

/// The unsigned number that `s` writes: digits, a plus sign before them or not,
/// within 64 bits.
pub open spec fn number(s: Seq<char>) -> Option<u64> {
    let digits = if s.len() > 0 && s[0] == '+' {
        s.drop_first()
    } else {
        s
    };
    if digits.len() == 0 {
        None
    } else {
        match digits_value(digits) {
            Some(n) => if n <= u64::MAX {
                Some(n as u64)
            } else {
                None
            },
            None => None,
        }
    }
}

proof fn lemma_digits_grow(s: Seq<char>, i: int)
    requires
        0 <= i <= s.len(),
    ensures
        digits_value(s.take(i)) is None ==> digits_value(s) is None,
        digits_value(s.take(i)) is Some && digits_value(s) is Some ==> digits_value(
            s.take(i),
        )->0 <= digits_value(s)->0,
    decreases s.len() - i,
{
    if i < s.len() {
        lemma_digits_grow(s, i + 1);
        assert(s.take(i + 1).drop_last() =~= s.take(i));
    } else {
        assert(s.take(i) =~= s);
    }
}

/// Reads an unsigned number of 64 bits.
pub fn parse_u64(s: &str) -> (r: Option<u64>)
    ensures
        r == number(s@),
{
    let v = chars_of(s);
    let from: usize = if v.len() > 0 && v[0] == '+' {
        1
    } else {
        0
    };
    if v.len() == from {
        assert(v@.drop_first().len() == 0 || from == 0);
        return None;
    }
    let ghost digits = v@.skip(from as int);
    proof {
        assert(from == 0 ==> digits =~= v@);
        assert(from == 1 ==> digits =~= v@.drop_first());
        assert(digits.take(0) =~= Seq::<char>::empty());
    }
    let mut n: u64 = 0;
    let mut i: usize = from;
    while i < v.len()
        invariant
            from <= i <= v@.len(),
            digits == v@.skip(from as int),
            digits_value(digits.take(i - from)) == Some(n as nat),
            s@ == v@,
            number(s@) == (match digits_value(digits) {
                Some(n) => if n <= u64::MAX {
                    Some(n as u64)
                } else {
                    None
                },
                None => None,
            }),
        decreases v@.len() - i,
    {
        proof {
            assert(digits.take(i + 1 - from).drop_last() =~= digits.take(i - from));
            lemma_digits_grow(digits, i + 1 - from);
        }
        let c = v[i];
        if !('0' <= c && c <= '9') {
            return None;
        }
        let d: u64 = (c as u8 - 48u8) as u64;
        if n > u64::MAX / 10 || n * 10 > u64::MAX - d {
            return None;
        }
        n = n * 10 + d;
        i = i + 1;
    }
    assert(digits.take(i - from) =~= digits);
    Some(n)
}

/// The texts with a separator between each two.
pub open spec fn separated(names: Seq<Seq<char>>, separator: Seq<char>) -> Seq<char>
    decreases names.len(),
{
    if names.len() == 0 {
        Seq::empty()
    } else if names.len() == 1 {
        names[0]
    } else {
        separated(names.drop_last(), separator) + separator + names.last()
    }
}

/// Writes texts in a row, with a separator between each two.
pub fn join_names(names: &Vec<String>, separator: &str) -> (r: String)
    ensures
        r@ == separated(names@.map_values(|s: String| s@), separator@),
{
    let ghost views = names@.map_values(|s: String| s@);
    let mut out = String::new();
    let mut i: usize = 0;
    while i < names.len()
        invariant
            i <= names@.len(),
            views == names@.map_values(|s: String| s@),
            out@ == separated(views.take(i as int), separator@),
        decreases names@.len() - i,
    {
        if i > 0 {
            out.append(separator);
        }
        out.append(names[i].as_str());
        assert(views.take(i + 1).drop_last() =~= views.take(i as int));
        assert(i == 0 ==> out@ =~= views[0]);
        i = i + 1;
    }
    assert(views.take(i as int) =~= views);
    out
}

/// Taking blanks off one end leaves none there; what is left stands in the text
/// as it was.
pub proof fn lemma_dropped_ends(s: Seq<char>, k: Blank)
    ensures
        drop_leading(s, k).len() > 0 ==> !k.has(drop_leading(s, k)[0]),
        drop_trailing(s, k).len() > 0 ==> !k.has(drop_trailing(s, k).last()),
        drop_trailing(s, k).len() <= s.len(),
        drop_trailing(s, k) == s.take(drop_trailing(s, k).len() as int),
        drop_leading(s, k).len() <= s.len(),
        drop_leading(s, k) == s.skip(s.len() - drop_leading(s, k).len()),
    decreases s.len(),
{
    assert(s.take(s.len() as int) =~= s);
    assert(s.skip(0) =~= s);
    if s.len() > 0 {
        lemma_dropped_ends(s.drop_first(), k);
        lemma_dropped_ends(s.drop_last(), k);
        let n = drop_trailing(s.drop_last(), k).len() as int;
        assert(s.drop_last().take(n) =~= s.take(n));
        let m = drop_leading(s.drop_first(), k).len() as int;
        assert(s.drop_first().skip(s.len() - 1 - m) =~= s.skip(s.len() - m));
    }
}

/// Trimming a trimmed text changes nothing.
pub proof fn lemma_trimmed_twice(s: Seq<char>)
    ensures
        trimmed(trimmed(s)) == trimmed(s),
        trimmed(s).len() > 0 ==> !is_white(trimmed(s)[0]) && !is_white(trimmed(s).last()),
{
    let lead = drop_leading(s, Blank::White);
    lemma_dropped_ends(s, Blank::White);
    lemma_dropped_ends(lead, Blank::White);
    let t = trimmed(s);
    if t.len() > 0 {
        assert(t[0] == lead[0]);
    }
}

/// A text without white space at its ends is left alone by trimming.
pub proof fn lemma_trimmed_already(s: Seq<char>)
    requires
        s.len() > 0 ==> !is_white(s[0]) && !is_white(s.last()),
    ensures
        trimmed(s) == s,
{
}

/// Making letters small changes nothing about white space, and nothing when it
/// is done again.
pub proof fn lemma_lower_twice(s: Seq<char>)
    ensures
        lower(lower(s)) == lower(s),
        trimmed(lower(trimmed(s))) == lower(trimmed(s)),
{
    assert(lower(lower(s)) =~= lower(s));
    lemma_trimmed_twice(s);
    lemma_trimmed_already(lower(trimmed(s)));
}

/// Trimming takes off white space at both ends, and nothing else: what it leaves stands in
/// the text, with nothing but white space before and behind it.
pub proof fn trimming_takes_white_space_alone(s: Seq<char>)
    ensures
        exists|from: int, to: int|
            0 <= from <= to <= s.len() && trimmed(s) == #[trigger] s.subrange(from, to) && (
            forall|i: int| 0 <= i < from ==> is_white(#[trigger] s[i])) && (forall|i: int|
                to <= i < s.len() ==> is_white(#[trigger] s[i])),
        trimmed(s).len() > 0 ==> !is_white(trimmed(s)[0]) && !is_white(trimmed(s).last()),
{
    lemma_trimmed_twice(s);
    let lead = drop_leading(s, Blank::White);
    let from = s.len() - lead.len();
    assert(0 <= from && lead == s.skip(from) && (forall|i: int|
        0 <= i < from ==> is_white(#[trigger] s[i]))) by {
        lemma_dropped_ends(s, Blank::White);
        lemma_dropped_are_blank(s, Blank::White);
    }
    lemma_trimmed_end(s, lead, from);
}

proof fn lemma_trimmed_end(s: Seq<char>, lead: Seq<char>, from: int)
    requires
        0 <= from <= s.len(),
        lead == s.skip(from),
        lead == drop_leading(s, Blank::White),
        forall|i: int| 0 <= i < from ==> is_white(#[trigger] s[i]),
    ensures
        exists|from: int, to: int|
            0 <= from <= to <= s.len() && trimmed(s) == #[trigger] s.subrange(from, to) && (
            forall|i: int| 0 <= i < from ==> is_white(#[trigger] s[i])) && (forall|i: int|
                to <= i < s.len() ==> is_white(#[trigger] s[i])),
{
    let n = trimmed(s).len() as int;
    assert(n <= lead.len() && trimmed(s) == lead.take(n) && (forall|i: int|
        n <= i < lead.len() ==> is_white(#[trigger] lead[i]))) by {
        lemma_dropped_ends(lead, Blank::White);
        lemma_dropped_are_blank(lead, Blank::White);
    }
    assert(lead.take(n) =~= s.subrange(from, from + n));
    assert forall|i: int| from + n <= i < s.len() implies is_white(#[trigger] s[i]) by {
        assert(lead[i - from] == s[i]);
    }
}

proof fn lemma_dropped_are_blank(s: Seq<char>, k: Blank)
    ensures
        forall|i: int| 0 <= i < s.len() - drop_leading(s, k).len() ==> k.has(#[trigger] s[i]),
        forall|i: int| drop_trailing(s, k).len() <= i < s.len() ==> k.has(#[trigger] s[i]),
    decreases s.len(),
{
    if s.len() > 0 {
        lemma_dropped_are_blank(s.drop_first(), k);
        lemma_dropped_are_blank(s.drop_last(), k);
        lemma_dropped_ends(s.drop_first(), k);
        lemma_dropped_ends(s.drop_last(), k);
        assert forall|i: int| 0 <= i < s.len() - drop_leading(s, k).len() implies k.has(
            #[trigger] s[i],
        ) by {
            if i > 0 {
                assert(s.drop_first()[i - 1] == s[i]);
            }
        }
        assert forall|i: int| drop_trailing(s, k).len() <= i < s.len() implies k.has(
            #[trigger] s[i],
        ) by {
            if i < s.len() - 1 {
                assert(s.drop_last()[i] == s[i]);
            }
        }
    }
}

/// A number that is written in decimal is read back as itself.
pub proof fn written_numbers_are_read_back(n: u64)
    ensures
        number(dec(n as nat)) == Some(n),
        digits_value(dec(n as nat)) == Some(n as nat),
{
    lemma_dec_value(n as nat);
}

proof fn lemma_dec_value(n: nat)
    ensures
        dec(n).len() > 0,
        digits_value(dec(n)) == Some(n),
        '0' <= dec(n)[0] <= '9',
    decreases n,
{
    reveal_with_fuel(dec, 2);
    reveal_with_fuel(digits_value, 2);
    if n < 10 {
        assert(dec(n).drop_last() =~= Seq::<char>::empty());
    } else {
        lemma_dec_value(n / 10);
        assert(dec(n).drop_last() =~= dec(n / 10));
    }
}

/// A time is shown as its minutes and its seconds, each with two digits, while it is below
/// a hundred minutes.
pub proof fn times_show_minutes_and_seconds(minutes: nat, seconds: nat, rest: nat)
    requires
        minutes < 100,
        seconds < 60,
        rest < 1_000,
    ensures
        ({
            let text = clock_text(minutes * 60_000 + seconds * 1_000 + rest);
            &&& text.len() == 5
            &&& text[2] == ':'
            &&& digits_value(text.take(2)) == Some(minutes)
            &&& digits_value(text.skip(3)) == Some(seconds)
        }),
{
    reveal(clock_text);
    reveal_with_fuel(digits_value, 3);
    let ms = minutes * 60_000 + seconds * 1_000 + rest;
    assert(ms / 60_000 == minutes);
    assert(ms / 1_000 % 60 == seconds);
    let text = clock_text(ms);
    assert(text.take(2) =~= two_digits(minutes));
    assert(text.skip(3) =~= two_digits(seconds));
    lemma_two_digits(minutes);
    lemma_two_digits(seconds);
}

proof fn lemma_two_digits(n: nat)
    requires
        n < 100,
    ensures
        digits_value(two_digits(n)) == Some(n),
{
    reveal_with_fuel(digits_value, 3);
    let text = two_digits(n);
    assert(text.drop_last() =~= seq![digit(n / 10 % 10)]);
    assert(text.drop_last().drop_last() =~= Seq::<char>::empty());
}

/// What stands before the first of a character has none of it, and what follows begins with
/// it; all of the text stands before it where it does not occur.
pub proof fn texts_are_cut_before_the_first(s: Seq<char>, c: char)
    ensures
        before(s, c).is_prefix_of(s),
        forall|i: int| 0 <= i < before(s, c).len() ==> #[trigger] before(s, c)[i] != c,
        before(s, c).len() < s.len() ==> s[before(s, c).len() as int] == c,
    decreases s.len(),
{
    if s.len() > 0 && s[0] != c {
        let rest = before(s.drop_first(), c);
        texts_are_cut_before_the_first(s.drop_first(), c);
        assert(before(s, c) =~= seq![s[0]] + rest);
        assert(rest =~= s.drop_first().subrange(0, rest.len() as int));
        assert(before(s, c) =~= s.subrange(0, before(s, c).len() as int));
        assert forall|i: int| 0 <= i < before(s, c).len() implies #[trigger] before(s, c)[i]
            != c by {
            if i > 0 {
                assert(before(s, c)[i] == rest[i - 1]);
            }
        }
        if before(s, c).len() < s.len() {
            assert(s.drop_first()[rest.len() as int] == s[before(s, c).len() as int]);
        }
    } else {
        assert(before(s, c) =~= s.subrange(0, 0));
    }
}

/// What stands behind the last of a character has none of it, and is the end of the text;
/// all of the text where it does not occur.
pub proof fn texts_are_cut_behind_the_last(s: Seq<char>, c: char)
    ensures
        after_last(s, c).len() <= s.len(),
        after_last(s, c) == s.skip(s.len() - after_last(s, c).len()),
        forall|i: int| 0 <= i < after_last(s, c).len() ==> #[trigger] after_last(s, c)[i] != c,
        after_last(s, c).len() < s.len() ==> s[s.len() - after_last(s, c).len() - 1] == c,
    decreases s.len(),
{
    if s.len() > 0 && s.last() != c {
        let rest = after_last(s.drop_last(), c);
        texts_are_cut_behind_the_last(s.drop_last(), c);
        assert(after_last(s, c) =~= s.skip(s.len() - after_last(s, c).len()));
        assert forall|i: int| 0 <= i < after_last(s, c).len() implies #[trigger] after_last(s, c)[i]
            != c by {
            if i < rest.len() {
                assert(after_last(s, c)[i] == rest[i]);
            }
        }
    } else {
        assert(after_last(s, c) =~= s.skip(s.len() as int));
    }
}

/// A path below a directory begins with the directory and ends with its own part, with one
/// separator between them; a path from the root stays as it is.
pub proof fn paths_are_joined(base: Seq<char>, rel: Seq<char>)
    ensures
        rel.len() > 0 && rel[0] == '/' ==> joined(base, rel) == rel,
        rel.len() > 0 && rel[0] != '/' && base.len() > 0 && base.last() != '/' ==> joined(base, rel)
            == base + seq!['/'] + rel,
        rel.len() > 0 && rel[0] != '/' && base.len() > 0 && base.last() == '/' ==> joined(base, rel)
            == base + rel,
{
    assert(base.push('/') + rel =~= base + seq!['/'] + rel);
}

/// Making letters small changes capital letters alone, and keeps the length.
pub proof fn capitals_are_made_small(s: Seq<char>, i: int)
    requires
        0 <= i < s.len(),
    ensures
        lower(s).len() == s.len(),
        s[i] == 'A' ==> lower(s)[i] == 'a',
        s[i] == 'Z' ==> lower(s)[i] == 'z',
        !('A' <= s[i] <= 'Z') ==> lower(s)[i] == s[i],
        'A' <= s[i] <= 'Z' ==> lower(s)[i] as u32 == s[i] as u32 + 32,
{
}

/// Replacing puts the new text where the old one stood, and keeps what stands around it.
pub proof fn replacing_keeps_what_stands_around(
    front: Seq<char>,
    pat: Seq<char>,
    with: Seq<char>,
    back: Seq<char>,
    from: int,
)
    requires
        pat.len() > 0,
        0 <= from <= front.len(),
        forall|i: int| 0 <= i < front.len() ==> #[trigger] front[i] != pat[0],
        forall|i: int| 0 <= i < back.len() ==> #[trigger] back[i] != pat[0],
    ensures
        replaced_from(front + pat + back, pat, with, from) == front.skip(from) + with + back,
    decreases front.len() - from,
{
    let s = front + pat + back;
    let n = front.len() as int;
    if from < n {
        assert(!occurs_at(s, pat, from)) by {
            if occurs_at(s, pat, from) {
                assert(s.subrange(from, from + pat.len())[0] == pat[0]);
                assert(s[from] == front[from]);
            }
        }
        replacing_keeps_what_stands_around(front, pat, with, back, from + 1);
        assert(seq![s[from]] + (front.skip(from + 1) + with + back) =~= front.skip(from) + with
            + back);
    } else {
        assert(s.subrange(n, n + pat.len()) =~= pat);
        assert(occurs_at(s, pat, n));
        lemma_nothing_to_replace(s, pat, with, n + pat.len());
        assert(s.skip(n + pat.len()) =~= back);
        assert(front.skip(n) + with + back =~= with + back);
    }
}

proof fn lemma_nothing_to_replace(s: Seq<char>, pat: Seq<char>, with: Seq<char>, from: int)
    requires
        pat.len() > 0,
        0 <= from <= s.len(),
        forall|i: int| from <= i < s.len() ==> #[trigger] s[i] != pat[0],
    ensures
        replaced_from(s, pat, with, from) == s.skip(from),
    decreases s.len() - from,
{
    if from < s.len() {
        assert(!occurs_at(s, pat, from)) by {
            if occurs_at(s, pat, from) {
                assert(s.subrange(from, from + pat.len())[0] == s[from]);
            }
        }
        lemma_nothing_to_replace(s, pat, with, from + 1);
        assert(seq![s[from]] + s.skip(from + 1) =~= s.skip(from));
    }
}

/// A text that stands between two others is found there.
pub proof fn texts_are_found_where_they_stand(front: Seq<char>, pat: Seq<char>, back: Seq<char>)
    ensures
        has_text(front + pat + back, pat),
        occurs_at(pat + back, pat, 0),
        ends_in(front + pat, pat),
{
    let s = front + pat + back;
    let n = front.len() as int;
    assert(s.subrange(n, n + pat.len()) =~= pat);
    assert(occurs_at(s, pat, n));
    assert((pat + back).subrange(0, pat.len() as int) =~= pat);
    assert((front + pat).subrange(n, n + pat.len()) =~= pat);
}

/// The name of a file is what stands behind the last separator of its path, and separators at
/// the end of a path do not count.
pub proof fn paths_end_with_the_name(dir: Seq<char>, name: Seq<char>)
    requires
        forall|i: int| 0 <= i < name.len() ==> #[trigger] name[i] != '/',
    ensures
        file_name(dir.push('/') + name) == name,
        bare_path(dir.push('/')) == bare_path(dir),
    decreases name.len(),
{
    let path = dir.push('/') + name;
    if name.len() == 0 {
        assert(path =~= dir.push('/'));
        assert(file_name(path) =~= name);
    } else {
        paths_end_with_the_name(dir, name.drop_last());
        assert(path.drop_last() =~= dir.push('/') + name.drop_last());
        assert(file_name(path) =~= name);
    }
    assert(dir.push('/').drop_last() =~= dir);
}

/// Texts in a row stand in their order, with the separator between each two.
pub proof fn texts_are_joined_in_order(names: Seq<Seq<char>>, name: Seq<char>, sep: Seq<char>)
    ensures
        separated(Seq::<Seq<char>>::empty(), sep).len() == 0,
        separated(seq![name], sep) == name,
        names.len() > 0 ==> separated(names.push(name), sep) == separated(names, sep) + sep + name,
{
    assert(names.push(name).drop_last() =~= names);
}

/// What is no row of digits is no number.
pub proof fn letters_are_no_numbers(s: Seq<char>, i: int)
    requires
        0 <= i < s.len(),
        !('0' <= s[i] <= '9'),
    ensures
        digits_value(s) is None,
        i > 0 || s[i] != '+' ==> number(s) is None,
    decreases s.len(),
{
    if i < s.len() - 1 {
        letters_are_no_numbers(s.drop_last(), i);
    }
    if s[0] == '+' && i > 0 {
        lemma_no_digits(s.drop_first(), i - 1);
    }
}

proof fn lemma_no_digits(s: Seq<char>, i: int)
    requires
        0 <= i < s.len(),
        !('0' <= s[i] <= '9'),
    ensures
        digits_value(s) is None,
    decreases s.len(),
{
    if i < s.len() - 1 {
        lemma_no_digits(s.drop_last(), i);
    }
}

} // verus!
