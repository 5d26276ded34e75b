//! Character-level string operations with exact contracts.
//!
//! Text is handled as `Vec<char>` (its view a `Seq<char>`) while it is being
//! taken apart, and turned back into a `String` at the edges.
use vstd::prelude::*;

verus! {

/// Appends `c` to `s` (`String::push`).
#[verifier::external_body]
pub fn push_char(s: &mut String, c: char)
    ensures
        final(s)@ == old(s)@.push(c),
{
    s.push(c);
}

/// The characters of `s`, in order.
pub fn chars_of(s: &str) -> (r: Vec<char>)
    ensures
        r@ == s@,
{
    let mut r: Vec<char> = Vec::new();
    for c in it: s.chars()
        invariant
            r@ == it.seq().take(it.index() as int),
    {
        r.push(c);
    }
    r
}

/// A string made of the characters of `cs`.
pub fn string_of(cs: &Vec<char>) -> (r: String)
    ensures
        r@ == cs@,
{
    let mut r = String::new();
    let mut i: usize = 0;
    while i < cs.len()
        invariant
            i <= cs.len(),
            r@ == cs@.take(i as int),
        decreases cs.len() - i,
    {
        push_char(&mut r, cs[i]);
        assert(cs@.take(i as int + 1) == cs@.take(i as int).push(cs@[i as int]));
        i = i + 1;
    }
    assert(cs@.take(cs.len() as int) == cs@);
    r
}

/// A string holding the characters of the literal `s`.
pub fn string_from(s: &str) -> (r: String)
    ensures
        r@ == s@,
{
    let cs = chars_of(s);
    string_of(&cs)
}

/// Appends the characters of `s` to `out`.
pub fn append_str(out: &mut Vec<char>, s: &str)
    ensures
        final(out)@ == old(out)@ + s@,
{
    let cs = chars_of(s);
    append_chars(out, &cs);
}

/// Appends `cs` to `out`.
pub fn append_chars(out: &mut Vec<char>, cs: &Vec<char>)
    ensures
        final(out)@ == old(out)@ + cs@,
{
    let ghost start = out@;
    let mut i: usize = 0;
    while i < cs.len()
        invariant
            i <= cs.len(),
            out@ == start + cs@.take(i as int),
        decreases cs.len() - i,
    {
        out.push(cs[i]);
        assert(cs@.take(i as int + 1) == cs@.take(i as int).push(cs@[i as int]));
        i = i + 1;
    }
    assert(cs@.take(cs.len() as int) == cs@);
}

/// Unicode `White_Space`, the property that `char::is_whitespace` and
/// `str::trim` test.
pub open spec fn is_white_space(c: char) -> bool {
    let u = c as u32;
    ||| (0x09 <= u && u <= 0x0d)
    ||| u == 0x20
    ||| u == 0x85
    ||| u == 0xa0
    ||| u == 0x1680
    ||| (0x2000 <= u && u <= 0x200a)
    ||| u == 0x2028
    ||| u == 0x2029
    ||| u == 0x202f
    ||| u == 0x205f
    ||| u == 0x3000
}

/// Whether `c` is Unicode white space.
pub fn char_is_white_space(c: char) -> (r: bool)
    ensures
        r == is_white_space(c),
{
    let u = c as u32;
    (0x09 <= u && u <= 0x0d) || u == 0x20 || u == 0x85 || u == 0xa0 || u == 0x1680 || (0x2000
        <= u && u <= 0x200a) || u == 0x2028 || u == 0x2029 || u == 0x202f || u == 0x205f || u
        == 0x3000
}

/// What a trim removes: white space, or the double quote.
pub enum TrimClass {
    WhiteSpace,
    Quote,
}

pub open spec fn in_class(k: TrimClass, c: char) -> bool {
    match k {
        TrimClass::WhiteSpace => is_white_space(c),
        TrimClass::Quote => c == '"',
    }
}

fn char_in_class(k: &TrimClass, c: char) -> (r: bool)
    ensures
        r == in_class(*k, c),
{
    match k {
        TrimClass::WhiteSpace => char_is_white_space(c),
        TrimClass::Quote => c == '"',
    }
}

/// How many characters at the front of `s` are in class `k`.
pub open spec fn leading_count(s: Seq<char>, k: TrimClass) -> nat
    decreases s.len(),
{
    if s.len() == 0 {
        0
    } else if in_class(k, s[0]) {
        1 + leading_count(s.drop_first(), k)
    } else {
        0
    }
}

/// How many characters at the back of `s` are in class `k`.
pub open spec fn trailing_count(s: Seq<char>, k: TrimClass) -> nat
    decreases s.len(),
{
    if s.len() == 0 {
        0
    } else if in_class(k, s.last()) {
        1 + trailing_count(s.drop_last(), k)
    } else {
        0
    }
}

/// `s` without its leading and trailing characters of class `k`
/// (`str::trim`, `str::trim_matches`).
pub open spec fn trim_by(s: Seq<char>, k: TrimClass) -> Seq<char> {
    let front = s.skip(leading_count(s, k) as int);
    front.take(front.len() - trailing_count(front, k))
}

/// `s` without leading and trailing white space (`str::trim`).
pub open spec fn trim(s: Seq<char>) -> Seq<char> {
    trim_by(s, TrimClass::WhiteSpace)
}

proof fn lemma_leading_count(s: Seq<char>, k: TrimClass, n: int)
    requires
        0 <= n <= s.len(),
        forall|j: int| 0 <= j < n ==> in_class(k, #[trigger] s[j]),
        n == s.len() || !in_class(k, s[n]),
    ensures
        leading_count(s, k) == n,
    decreases n,
{
    if n > 0 {
        assert forall|j: int| 0 <= j < n - 1 implies in_class(k, #[trigger] s.drop_first()[j]) by {
            assert(s.drop_first()[j] == s[j + 1]);
        }
        lemma_leading_count(s.drop_first(), k, n - 1);
    }
}

proof fn lemma_trailing_count(s: Seq<char>, k: TrimClass, n: int)
    requires
        0 <= n <= s.len(),
        forall|j: int| s.len() - n <= j < s.len() ==> in_class(k, #[trigger] s[j]),
        n == s.len() || !in_class(k, s[s.len() - n - 1]),
    ensures
        trailing_count(s, k) == n,
    decreases n,
{
    if n > 0 {
        let t = s.drop_last();
        assert forall|j: int| t.len() - (n - 1) <= j < t.len() implies in_class(
            k,
            #[trigger] t[j],
        ) by {
            assert(t[j] == s[j]);
        }
        if n - 1 < t.len() {
            assert(t[t.len() - (n - 1) - 1] == s[s.len() - n - 1]);
        }
        lemma_trailing_count(t, k, n - 1);
    }
}

proof fn lemma_leading_count_stops(s: Seq<char>, k: TrimClass)
    ensures
        leading_count(s, k) <= s.len(),
        leading_count(s, k) < s.len() ==> !in_class(k, s[leading_count(s, k) as int]),
    decreases s.len(),
{
    if s.len() > 0 && in_class(k, s[0]) {
        lemma_leading_count_stops(s.drop_first(), k);
        if leading_count(s, k) < s.len() {
            assert(s.drop_first()[leading_count(s.drop_first(), k) as int] == s[leading_count(s, k) as int]);
        }
    }
}

proof fn lemma_trailing_count_stops(s: Seq<char>, k: TrimClass)
    ensures
        trailing_count(s, k) <= s.len(),
        trailing_count(s, k) < s.len() ==> !in_class(k, s[s.len() - trailing_count(s, k) - 1]),
    decreases s.len(),
{
    if s.len() > 0 && in_class(k, s.last()) {
        let t = s.drop_last();
        lemma_trailing_count_stops(t, k);
        if trailing_count(s, k) < s.len() {
            assert(t[t.len() - trailing_count(t, k) - 1] == s[s.len() - trailing_count(s, k) - 1]);
        }
    }
}

/// Trimming twice is trimming once.
pub proof fn lemma_trim_by_idempotent(s: Seq<char>, k: TrimClass)
    ensures
        trim_by(trim_by(s, k), k) == trim_by(s, k),
{
    let t = trim_by(s, k);
    let front = s.skip(leading_count(s, k) as int);
    lemma_leading_count_stops(s, k);
    lemma_trailing_count_stops(front, k);
    if t.len() > 0 {
        assert(t[0] == s[leading_count(s, k) as int]);
        assert(t[t.len() - 1] == front[front.len() - trailing_count(front, k) - 1]);
        assert(leading_count(t, k) == 0);
        assert(trailing_count(t, k) == 0);
        assert(t.skip(0) =~= t);
        assert(t.take(t.len() as int) =~= t);
    } else {
        assert(trim_by(t, k) =~= t);
    }
}

/// `cs` without its leading and trailing characters of class `k`.
pub fn trim_chars(cs: &Vec<char>, k: TrimClass) -> (r: Vec<char>)
    ensures
        r@ == trim_by(cs@, k),
{
    let n = cs.len();
    let mut a: usize = 0;
    while a < n && char_in_class(&k, cs[a])
        invariant
            a <= n,
            n == cs.len(),
            forall|j: int| 0 <= j < a ==> in_class(k, #[trigger] cs@[j]),
        decreases n - a,
    {
        a = a + 1;
    }
    proof {
        lemma_leading_count(cs@, k, a as int);
    }
    let ghost front = cs@.skip(a as int);
    let mut b: usize = n;
    while b > a && char_in_class(&k, cs[b - 1])
        invariant
            a <= b <= n,
            n == cs.len(),
            front == cs@.skip(a as int),
            forall|j: int| b <= j < n ==> in_class(k, #[trigger] cs@[j]),
        decreases b,
    {
        b = b - 1;
    }
    proof {
        assert forall|j: int| front.len() - (n - b) <= j < front.len() implies in_class(
            k,
            #[trigger] front[j],
        ) by {
            assert(front[j] == cs@[j + a]);
        }
        if b > a {
            assert(front[front.len() - (n - b) - 1] == cs@[b - 1]);
        }
        lemma_trailing_count(front, k, (n - b) as int);
    }
    let mut r: Vec<char> = Vec::new();
    let mut i: usize = a;
    while i < b
        invariant
            a <= i <= b,
            b <= n,
            n == cs.len(),
            r@ == cs@.subrange(a as int, i as int),
        decreases b - i,
    {
        r.push(cs[i]);
        assert(cs@.subrange(a as int, i + 1) == cs@.subrange(a as int, i as int).push(cs@[i as int]));
        i = i + 1;
    }
    assert(r@ == trim_by(cs@, k));
    r
}

/// `s` without leading and trailing white space.
pub fn trim_str(s: &str) -> (r: String)
    ensures
        r@ == trim(s@),
{
    let cs = chars_of(s);
    let t = trim_chars(&cs, TrimClass::WhiteSpace);
    string_of(&t)
}


/// Index of the first `c` in `s` (`str::find` with a char pattern, counted in chars).
pub fn find_char(s: &Vec<char>, c: char) -> (r: Option<usize>)
    ensures
        r matches Some(i) ==> i < s@.len() && s@[i as int] == c && forall|j: int|
            0 <= j < i ==> s@[j] != c,
        r is None ==> forall|j: int| 0 <= j < s@.len() ==> s@[j] != c,
{
    let mut i: usize = 0;
    while i < s.len()
        invariant
            i <= s.len(),
            forall|j: int| 0 <= j < i ==> s@[j] != c,
        decreases s.len() - i,
    {
        if s[i] == c {
            return Some(i);
        }
        i = i + 1;
    }
    None
}

/// Index of the last `c` in `s` (`str::rfind` with a char pattern, counted in chars).
pub fn rfind_char(s: &Vec<char>, c: char) -> (r: Option<usize>)
    ensures
        r matches Some(i) ==> i < s@.len() && s@[i as int] == c && forall|j: int|
            i < j < s@.len() ==> s@[j] != c,
        r is None ==> forall|j: int| 0 <= j < s@.len() ==> s@[j] != c,
{
    let mut i: usize = s.len();
    while i > 0
        invariant
            i <= s.len(),
            forall|j: int| i <= j < s@.len() ==> s@[j] != c,
        decreases i,
    {
        if s[i - 1] == c {
            return Some(i - 1);
        }
        i = i - 1;
    }
    None
}

/// The characters of `s` from `a` up to, not including, `b`.
pub fn slice_chars(s: &Vec<char>, a: usize, b: usize) -> (r: Vec<char>)
    requires
        a <= b <= s@.len(),
    ensures
        r@ == s@.subrange(a as int, b as int),
{
    let mut r: Vec<char> = Vec::new();
    let mut i: usize = a;
    while i < b
        invariant
            a <= i <= b,
            b <= s@.len(),
            r@ == s@.subrange(a as int, i as int),
        decreases b - i,
    {
        r.push(s[i]);
        assert(s@.subrange(a as int, i + 1) == s@.subrange(a as int, i as int).push(s@[i as int]));
        i = i + 1;
    }
    r
}

/// Whether `pat` occurs in `s` at position `i`.
pub open spec fn occurs_at(s: Seq<char>, pat: Seq<char>, i: int) -> bool {
    0 <= i && i + pat.len() <= s.len() && s.subrange(i, i + pat.len()) == pat
}

/// Whether `pat` occurs in `s` at position `i`.
pub fn matches_at(s: &Vec<char>, pat: &Vec<char>, i: usize) -> (r: bool)
    ensures
        r == occurs_at(s@, pat@, i as int),
{
    if i > s.len() || pat.len() > s.len() - i {
        return false;
    }
    let mut j: usize = 0;
    while j < pat.len()
        invariant
            j <= pat.len(),
            i + pat.len() <= s.len(),
            forall|k: int| 0 <= k < j ==> s@[i + k] == pat@[k],
        decreases pat.len() - j,
    {
        if s[i + j] != pat[j] {
            assert(s@.subrange(i as int, i + pat.len())[j as int] != pat@[j as int]);
            return false;
        }
        j = j + 1;
    }
    assert(s@.subrange(i as int, i + pat.len()) =~= pat@);
    true
}

/// Whether `pat` occurs anywhere in `s` (`str::contains`).
pub open spec fn contains_seq(s: Seq<char>, pat: Seq<char>) -> bool {
    exists|i: int| occurs_at(s, pat, i)
}

/// Whether `pat` occurs anywhere in `s`.
pub fn contains_chars(s: &Vec<char>, pat: &Vec<char>) -> (r: bool)
    ensures
        r == contains_seq(s@, pat@),
{
    if pat.len() == 0 {
        assert(s@.subrange(0, 0) =~= pat@);
        assert(occurs_at(s@, pat@, 0));
        return true;
    }
    let mut i: usize = 0;
    while i < s.len()
        invariant
            i <= s.len(),
            pat@.len() > 0,
            forall|j: int| 0 <= j < i ==> !occurs_at(s@, pat@, j),
        decreases s.len() - i,
    {
        if matches_at(s, pat, i) {
            return true;
        }
        i = i + 1;
    }
    assert forall|j: int| !occurs_at(s@, pat@, j) by {
        if 0 <= j < i {
        }
    }
    false
}

/// `s` with every non-overlapping occurrence of `from`, scanning from the
/// left, replaced by `to` (`str::replace`).
pub open spec fn replace_seq(s: Seq<char>, from: Seq<char>, to: Seq<char>) -> Seq<char>
    decreases s.len(),
{
    if from.len() == 0 || s.len() < from.len() {
        s
    } else if s.take(from.len() as int) == from {
        to + replace_seq(s.skip(from.len() as int), from, to)
    } else {
        seq![s[0]] + replace_seq(s.drop_first(), from, to)
    }
}

/// `s` with `from` replaced by `to`.
pub fn replace_chars(s: &Vec<char>, from: &Vec<char>, to: &Vec<char>) -> (r: Vec<char>)
    requires
        from@.len() > 0,
    ensures
        r@ == replace_seq(s@, from@, to@),
{
    let mut out: Vec<char> = Vec::new();
    let mut i: usize = 0;
    assert(s@.skip(0) =~= s@);
    assert(out@ + s@ =~= s@);
    while i < s.len()
        invariant
            i <= s.len(),
            from@.len() > 0,
            out@ + replace_seq(s@.skip(i as int), from@, to@) == replace_seq(s@, from@, to@),
        decreases s.len() - i,
    {
        let ghost rest = s@.skip(i as int);
        if matches_at(s, from, i) {
            proof {
                assert(rest.take(from@.len() as int) =~= s@.subrange(i as int, i + from@.len()));
                assert(rest.skip(from@.len() as int) =~= s@.skip(i + from@.len()));
            }
            append_chars(&mut out, to);
            proof {
                assert(out@ + replace_seq(s@.skip(i + from@.len()), from@, to@) =~= old_out_plus(
                    out@,
                    to@,
                    replace_seq(s@.skip(i + from@.len()), from@, to@),
                ));
            }
            i = i + from.len();
        } else {
            proof {
                if rest.len() >= from@.len() {
                    assert(rest.take(from@.len() as int) =~= s@.subrange(
                        i as int,
                        i + from@.len(),
                    ));
                }
                assert(rest.drop_first() =~= s@.skip(i + 1));
            }
            out.push(s[i]);
            i = i + 1;
        }
    }
    assert(s@.skip(i as int) =~= Seq::<char>::empty());
    assert(out@ + Seq::<char>::empty() =~= out@);
    out
}

spec fn old_out_plus(a: Seq<char>, b: Seq<char>, c: Seq<char>) -> Seq<char> {
    a + c
}

/// `c` with ASCII upper-case letters lowered (`char::to_ascii_lowercase`).
pub open spec fn ascii_lower(c: char) -> char {
    if 'A' <= c && c <= 'Z' {
        ((c as u32) + 32) as char
    } else {
        c
    }
}

fn char_ascii_lower(c: char) -> (r: char)
    ensures
        r == ascii_lower(c),
{
    if 'A' <= c && c <= 'Z' {
        ((c as u8) + 32) as char
    } else {
        c
    }
}

/// Whether `a` and `b` are equal up to ASCII case (`str::eq_ignore_ascii_case`).
pub open spec fn eq_ignore_ascii_case(a: Seq<char>, b: Seq<char>) -> bool {
    a.len() == b.len() && forall|i: int| 0 <= i < a.len() ==> ascii_lower(a[i]) == ascii_lower(b[i])
}

/// Whether `a` and `b` are equal up to ASCII case.
pub fn chars_eq_ignore_ascii_case(a: &Vec<char>, b: &Vec<char>) -> (r: bool)
    ensures
        r == eq_ignore_ascii_case(a@, b@),
{
    if a.len() != b.len() {
        return false;
    }
    let mut i: usize = 0;
    while i < a.len()
        invariant
            i <= a.len(),
            a.len() == b.len(),
            forall|j: int| 0 <= j < i ==> ascii_lower(a@[j]) == ascii_lower(b@[j]),
        decreases a.len() - i,
    {
        if char_ascii_lower(a[i]) != char_ascii_lower(b[i]) {
            return false;
        }
        i = i + 1;
    }
    true
}

/// Whether `a` sorts before `b` in the order of `String` (code point by
/// code point, a proper prefix first).
pub open spec fn seq_less(a: Seq<char>, b: Seq<char>) -> bool
    decreases a.len(),
{
    if b.len() == 0 {
        false
    } else if a.len() == 0 {
        true
    } else if (a[0] as u32) < (b[0] as u32) {
        true
    } else if a[0] == b[0] {
        seq_less(a.drop_first(), b.drop_first())
    } else {
        false
    }
}

/// Whether `a` sorts before `b`.
pub fn chars_less(a: &Vec<char>, b: &Vec<char>) -> (r: bool)
    ensures
        r == seq_less(a@, b@),
{
    let mut i: usize = 0;
    assert(a@.skip(0) =~= a@ && b@.skip(0) =~= b@);
    while i < a.len() && i < b.len() && a[i] == b[i]
        invariant
            i <= a.len(),
            i <= b.len(),
            seq_less(a@, b@) == seq_less(a@.skip(i as int), b@.skip(i as int)),
        decreases a.len() - i,
    {
        proof {
            let (x, y) = (a@.skip(i as int), b@.skip(i as int));
            assert(x.drop_first() =~= a@.skip(i + 1));
            assert(y.drop_first() =~= b@.skip(i + 1));
        }
        i = i + 1;
    }
    let ghost (x, y) = (a@.skip(i as int), b@.skip(i as int));
    if i == b.len() {
        assert(y.len() == 0);
        false
    } else if i == a.len() {
        true
    } else {
        assert(x[0] == a@[i as int] && y[0] == b@[i as int]);
        (a[i] as u32) < (b[i] as u32)
    }
}

proof fn lemma_seq_less_irreflexive(a: Seq<char>)
    ensures
        !seq_less(a, a),
    decreases a.len(),
{
    if a.len() > 0 {
        lemma_seq_less_irreflexive(a.drop_first());
    }
}

/// `seq_less` is a strict total order.
pub proof fn lemma_seq_less_total(a: Seq<char>, b: Seq<char>)
    ensures
        a == b || seq_less(a, b) || seq_less(b, a),
        !(seq_less(a, b) && seq_less(b, a)),
        !seq_less(a, a),
    decreases a.len(),
{
    lemma_seq_less_irreflexive(a);
    if a.len() > 0 && b.len() > 0 && a[0] != b[0] {
        vstd::utf8::char_u32_cast(a[0], a[0] as u32);
        vstd::utf8::char_u32_cast(b[0], b[0] as u32);
    }
    if a.len() > 0 && b.len() > 0 && a[0] == b[0] {
        lemma_seq_less_total(a.drop_first(), b.drop_first());
        if a.drop_first() == b.drop_first() {
            assert(a =~= seq![a[0]] + a.drop_first());
            assert(b =~= seq![b[0]] + b.drop_first());
        }
    } else if a.len() == 0 && b.len() == 0 {
        assert(a =~= b);
    }
}

/// `seq_less` is transitive.
pub proof fn lemma_seq_less_transitive(a: Seq<char>, b: Seq<char>, c: Seq<char>)
    requires
        seq_less(a, b),
        seq_less(b, c),
    ensures
        seq_less(a, c),
    decreases a.len(),
{
    if a.len() > 0 && b.len() > 0 && c.len() > 0 && a[0] == b[0] && b[0] == c[0] {
        lemma_seq_less_transitive(a.drop_first(), b.drop_first(), c.drop_first());
    }
}


/// The decimal digit character for `d` (0 to 9).
pub open spec fn digit_char(d: int) -> char {
    (48 + d) as char
}

/// The decimal digits of `n`, most significant first, without leading zeros.
pub open spec fn nat_digits(n: nat) -> Seq<char>
    decreases n,
{
    if n < 10 {
        seq![digit_char(n as int)]
    } else {
        nat_digits(n / 10).push(digit_char((n % 10) as int))
    }
}

/// The decimal text of `n`, with a leading `-` when negative (`Display` of
/// an integer).
pub open spec fn int_text(n: int) -> Seq<char> {
    if n < 0 {
        seq!['-'] + nat_digits((-n) as nat)
    } else {
        nat_digits(n as nat)
    }
}

/// Appends the decimal digits of `n`.
pub fn push_digits(out: &mut Vec<char>, n: u64)
    ensures
        final(out)@ == old(out)@ + nat_digits(n as nat),
    decreases n,
{
    if n >= 10 {
        push_digits(out, n / 10);
    }
    let d = (n % 10) as u8;
    out.push((48u8 + d) as char);
    proof {
        if n >= 10 {
            assert(nat_digits(n as nat) == nat_digits((n / 10) as nat).push(digit_char((n % 10) as int)));
        }
    }
}

/// Appends the decimal text of `n`.
pub fn push_int(out: &mut Vec<char>, n: i64)
    ensures
        final(out)@ == old(out)@ + int_text(n as int),
{
    if n < 0 {
        out.push('-');
        let m: u64 = if n == i64::MIN {
            9223372036854775808u64
        } else {
            (-n) as u64
        };
        let ghost mid = out@;
        push_digits(out, m);
        assert(out@ =~= old(out)@ + int_text(n as int));
    } else {
        push_digits(out, n as u64);
    }
}

} // verus!
