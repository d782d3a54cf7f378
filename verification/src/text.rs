//! Character-level string helpers shared by the validators and URL builders.
//!
//! Strings are handled as sequences of `char` (`s@`), which is how vstd views
//! `str` and `String`.
use vstd::prelude::*;

verus! {

/// The character view of an optional string.
pub open spec fn opt_str_view(o: Option<String>) -> Option<Seq<char>> {
    match o {
        Some(s) => Some(s@),
        None => None,
    }
}

/// The character view of the string in a result.
pub open spec fn result_str_view<E>(r: Result<String, E>) -> Result<Seq<char>, E> {
    match r {
        Ok(s) => Ok(s@),
        Err(e) => Err(e),
    }
}

/// The characters of `s`, in order.
pub fn chars_of(s: &str) -> (res: Vec<char>)
    ensures
        res@ == s@,
{
    let mut res: Vec<char> = Vec::new();
    for c in it: s.chars()
        invariant
            res@ == it.seq().take(it.index() as int),
            it.seq() == s@,
    {
        res.push(c);
    }
    res
}

/// Appends one character to a `String` (`String::push`).
#[verifier::external_body]
fn push_char(s: &mut String, c: char)
    ensures
        final(s)@ == old(s)@.push(c),
{
    s.push(c);
}

/// The `String` made of the characters `v[from..to]`.
pub fn string_from_range(v: &Vec<char>, from: usize, to: usize) -> (res: String)
    requires
        from <= to <= v.len(),
    ensures
        res@ == v@.subrange(from as int, to as int),
{
    let mut res = String::new();
    let mut i = from;
    while i < to
        invariant
            from <= i <= to <= v.len(),
            res@ == v@.subrange(from as int, i as int),
        decreases to - i,
    {
        push_char(&mut res, v[i]);
        i = i + 1;
    }
    res
}

/// The `String` made of all characters of `v`.
pub fn string_from_chars(v: &Vec<char>) -> (res: String)
    ensures
        res@ == v@,
{
    let res = string_from_range(v, 0, v.len());
    assert(v@.subrange(0, v@.len() as int) == v@);
    res
}

/// The concatenation of two strings.
pub fn concat(a: &str, b: &str) -> (res: String)
    ensures
        res@ == a@ + b@,
{
    let mut res = String::from_str(a);
    res.append(b);
    res
}

/// The concatenation of three strings.
pub fn concat3(a: &str, b: &str, c: &str) -> (res: String)
    ensures
        res@ == a@ + b@ + c@,
{
    let mut res = String::from_str(a);
    res.append(b);
    res.append(c);
    res
}

/// A `String` holding the characters of `s`.
pub fn to_string(s: &str) -> (res: String)
    ensures
        res@ == s@,
{
    String::from_str(s)
}

/// Unicode `White_Space` property, the set `char::is_whitespace` and `str::trim` use.
pub open spec fn is_white_space(c: char) -> bool {
    let u = c as u32;
    ||| 0x09 <= u <= 0x0d
    ||| u == 0x20
    ||| u == 0x85
    ||| u == 0xa0
    ||| u == 0x1680
    ||| 0x2000 <= u <= 0x200a
    ||| u == 0x2028
    ||| u == 0x2029
    ||| u == 0x202f
    ||| u == 0x205f
    ||| u == 0x3000
}

/// Whether `c` has the Unicode `White_Space` property.
pub fn white_space(c: char) -> (b: bool)
    ensures
        b == is_white_space(c),
{
    let u = c as u32;
    (0x09 <= u && u <= 0x0d) || u == 0x20 || u == 0x85 || u == 0xa0 || u == 0x1680 || (0x2000
        <= u && u <= 0x200a) || u == 0x2028 || u == 0x2029 || u == 0x202f || u == 0x205f || u
        == 0x3000
}

/// `s` without its leading white space.
pub open spec fn trim_start_ws(s: Seq<char>) -> Seq<char>
    decreases s.len(),
{
    if s.len() > 0 && is_white_space(s[0]) {
        trim_start_ws(s.drop_first())
    } else {
        s
    }
}

/// `s` without its trailing white space.
pub open spec fn trim_end_ws(s: Seq<char>) -> Seq<char>
    decreases s.len(),
{
    if s.len() > 0 && is_white_space(s.last()) {
        trim_end_ws(s.drop_last())
    } else {
        s
    }
}

/// `s` without leading and trailing white space (`str::trim`).
pub open spec fn trim_ws(s: Seq<char>) -> Seq<char> {
    trim_end_ws(trim_start_ws(s))
}

/// `s` without the trailing occurrences of `c` (`str::trim_end_matches` with a char).
pub open spec fn trim_end_char(s: Seq<char>, c: char) -> Seq<char>
    decreases s.len(),
{
    if s.len() > 0 && s.last() == c {
        trim_end_char(s.drop_last(), c)
    } else {
        s
    }
}

/// `s` without the leading occurrences of `c` (`str::trim_start_matches` with a char).
pub open spec fn trim_start_char(s: Seq<char>, c: char) -> Seq<char>
    decreases s.len(),
{
    if s.len() > 0 && s[0] == c {
        trim_start_char(s.drop_first(), c)
    } else {
        s
    }
}

/// Whether `t` occurs in `s` as a contiguous block.
pub open spec fn contains_seq(s: Seq<char>, t: Seq<char>) -> bool {
    exists|i: int| 0 <= i && i + t.len() <= s.len() && #[trigger] s.subrange(i, i + t.len()) == t
}

/// Whether `s` begins with `t`.
pub open spec fn starts_with(s: Seq<char>, t: Seq<char>) -> bool {
    t.len() <= s.len() && s.subrange(0, t.len() as int) == t
}

proof fn lemma_trim_start_skip(s: Seq<char>, i: int)
    requires
        0 <= i <= s.len(),
        forall|k: int| 0 <= k < i ==> is_white_space(#[trigger] s[k]),
        i < s.len() ==> !is_white_space(s[i]),
    ensures
        trim_start_ws(s) == s.skip(i),
    decreases i,
{
    if i == 0 {
        assert(s.skip(0) == s);
    } else {
        let t = s.drop_first();
        assert forall|k: int| 0 <= k < i - 1 implies is_white_space(#[trigger] t[k]) by {
            assert(t[k] == s[k + 1]);
        }
        lemma_trim_start_skip(t, i - 1);
        assert(t.skip(i - 1) == s.skip(i));
    }
}

proof fn lemma_trim_end_take(s: Seq<char>, j: int)
    requires
        0 <= j <= s.len(),
        forall|k: int| j <= k < s.len() ==> is_white_space(#[trigger] s[k]),
        j > 0 ==> !is_white_space(s[j - 1]),
    ensures
        trim_end_ws(s) == s.take(j),
    decreases s.len() - j,
{
    if j == s.len() {
        assert(s.take(j) == s);
    } else {
        let t = s.drop_last();
        assert forall|k: int| j <= k < t.len() implies is_white_space(#[trigger] t[k]) by {
            assert(t[k] == s[k]);
        }
        assert(s.last() == s[s.len() - 1]);
        lemma_trim_end_take(t, j);
        assert(t.take(j) == s.take(j));
    }
}

proof fn lemma_trim_start_removes_white(s: Seq<char>)
    ensures
        exists|i: int|
            0 <= i <= s.len() && trim_start_ws(s) == s.skip(i) && (forall|k: int|
                0 <= k < i ==> is_white_space(#[trigger] s[k])) && (i < s.len() ==> !is_white_space(s[i])),
    decreases s.len(),
{
    if s.len() > 0 && is_white_space(s[0]) {
        let t = s.drop_first();
        lemma_trim_start_removes_white(t);
        let i = choose|i: int|
            0 <= i <= t.len() && trim_start_ws(t) == t.skip(i) && (forall|k: int|
                0 <= k < i ==> is_white_space(#[trigger] t[k])) && (i < t.len() ==> !is_white_space(t[i]));
        assert(t.skip(i) =~= s.skip(i + 1));
        assert forall|k: int| 0 <= k < i + 1 implies is_white_space(#[trigger] s[k]) by {
            if k > 0 {
                assert(s[k] == t[k - 1]);
            }
        }
        assert(i + 1 < s.len() ==> s[i + 1] == t[i]);
    } else {
        assert(s.skip(0) =~= s);
    }
}

proof fn lemma_trim_end_removes_white(s: Seq<char>)
    ensures
        exists|j: int|
            0 <= j <= s.len() && trim_end_ws(s) == s.take(j) && (forall|k: int|
                j <= k < s.len() ==> is_white_space(#[trigger] s[k])) && (j > 0 ==> !is_white_space(s[j - 1])),
    decreases s.len(),
{
    if s.len() > 0 && is_white_space(s.last()) {
        let t = s.drop_last();
        lemma_trim_end_removes_white(t);
        let j = choose|j: int|
            0 <= j <= t.len() && trim_end_ws(t) == t.take(j) && (forall|k: int|
                j <= k < t.len() ==> is_white_space(#[trigger] t[k])) && (j > 0 ==> !is_white_space(t[j - 1]));
        assert(t.take(j) =~= s.take(j));
        assert forall|k: int| j <= k < s.len() implies is_white_space(#[trigger] s[k]) by {
            if k < s.len() - 1 {
                assert(s[k] == t[k]);
            }
        }
        assert(j > 0 ==> s[j - 1] == t[j - 1]);
    } else {
        assert(s.take(s.len() as int) =~= s);
    }
}

/// Trimming removes white space only, and all of it at both ends: the result is
/// a contiguous part of `s`, everything before and after it is white space, and
/// the result neither starts nor ends with white space.
pub proof fn lemma_trim_ws_removes_only_white_space(s: Seq<char>)
    ensures
        exists|i: int, j: int|
            0 <= i <= j <= s.len() && trim_ws(s) == s.subrange(i, j) && (forall|k: int|
                0 <= k < i ==> is_white_space(#[trigger] s[k])) && (forall|k: int|
                j <= k < s.len() ==> is_white_space(#[trigger] s[k])),
        trim_ws(s).len() > 0 ==> !is_white_space(trim_ws(s)[0]) && !is_white_space(trim_ws(s).last()),
{
    lemma_trim_start_removes_white(s);
    let i = choose|i: int|
        0 <= i <= s.len() && trim_start_ws(s) == s.skip(i) && (forall|k: int|
            0 <= k < i ==> is_white_space(#[trigger] s[k])) && (i < s.len() ==> !is_white_space(s[i]));
    let u = s.skip(i);
    lemma_trim_end_removes_white(u);
    let j = choose|j: int|
        0 <= j <= u.len() && trim_end_ws(u) == u.take(j) && (forall|k: int|
            j <= k < u.len() ==> is_white_space(#[trigger] u[k])) && (j > 0 ==> !is_white_space(u[j - 1]));
    assert(u.take(j) =~= s.subrange(i, i + j));
    assert forall|k: int| i + j <= k < s.len() implies is_white_space(#[trigger] s[k]) by {
        assert(s[k] == u[k - i]);
    }
    if j > 0 {
        assert(trim_ws(s)[0] == u[0]);
        assert(u[0] == s[i]);
        assert(trim_ws(s).last() == u[j - 1]);
    }
}

/// `s` without leading and trailing white space (`str::trim`), as characters.
pub fn trim(s: &str) -> (res: Vec<char>)
    ensures
        res@ == trim_ws(s@),
{
    let v = chars_of(s);
    let n = v.len();
    let mut i: usize = 0;
    while i < n && white_space(v[i])
        invariant
            n == v@.len(),
            i <= n,
            forall|k: int| 0 <= k < i ==> is_white_space(#[trigger] v@[k]),
        decreases n - i,
    {
        i = i + 1;
    }
    proof {
        lemma_trim_start_skip(v@, i as int);
    }
    let ghost u = v@.skip(i as int);
    let mut j: usize = n;
    while j > i && white_space(v[j - 1])
        invariant
            n == v@.len(),
            i <= j <= n,
            forall|k: int| j <= k < n ==> is_white_space(#[trigger] v@[k]),
        decreases j,
    {
        j = j - 1;
    }
    proof {
        assert forall|k: int| j - i <= k < u.len() implies is_white_space(#[trigger] u[k]) by {
            assert(u[k] == v@[k + i]);
        }
        if j > i {
            assert(u[j - i - 1] == v@[j - 1]);
        }
        lemma_trim_end_take(u, j - i);
        assert(u.take(j - i) == v@.subrange(i as int, j as int));
    }
    let mut res: Vec<char> = Vec::new();
    let mut k = i;
    while k < j
        invariant
            i <= k <= j <= n == v@.len(),
            res@ == v@.subrange(i as int, k as int),
        decreases j - k,
    {
        res.push(v[k]);
        k = k + 1;
    }
    res
}

proof fn lemma_trim_end_char_take(s: Seq<char>, c: char, j: int)
    requires
        0 <= j <= s.len(),
        forall|k: int| j <= k < s.len() ==> #[trigger] s[k] == c,
        j > 0 ==> s[j - 1] != c,
    ensures
        trim_end_char(s, c) == s.take(j),
    decreases s.len() - j,
{
    if j == s.len() {
        assert(s.take(j) == s);
    } else {
        let t = s.drop_last();
        assert forall|k: int| j <= k < t.len() implies #[trigger] t[k] == c by {
            assert(t[k] == s[k]);
        }
        lemma_trim_end_char_take(t, c, j);
        assert(t.take(j) == s.take(j));
    }
}

proof fn lemma_trim_start_char_skip(s: Seq<char>, c: char, i: int)
    requires
        0 <= i <= s.len(),
        forall|k: int| 0 <= k < i ==> #[trigger] s[k] == c,
        i < s.len() ==> s[i] != c,
    ensures
        trim_start_char(s, c) == s.skip(i),
    decreases i,
{
    if i == 0 {
        assert(s.skip(0) == s);
    } else {
        let t = s.drop_first();
        assert forall|k: int| 0 <= k < i - 1 implies #[trigger] t[k] == c by {
            assert(t[k] == s[k + 1]);
        }
        lemma_trim_start_char_skip(t, c, i - 1);
        assert(t.skip(i - 1) == s.skip(i));
    }
}

/// The length of `v` without its trailing occurrences of `c`.
pub fn trimmed_end_len(v: &Vec<char>, c: char) -> (j: usize)
    ensures
        j <= v.len(),
        v@.take(j as int) == trim_end_char(v@, c),
{
    let mut j = v.len();
    while j > 0 && v[j - 1] == c
        invariant
            j <= v.len(),
            forall|k: int| j <= k < v@.len() ==> #[trigger] v@[k] == c,
        decreases j,
    {
        j = j - 1;
    }
    proof {
        lemma_trim_end_char_take(v@, c, j as int);
    }
    j
}

/// `s` without its trailing occurrences of `c` (`str::trim_end_matches`).
pub fn trim_end_matches(s: &str, c: char) -> (res: String)
    ensures
        res@ == trim_end_char(s@, c),
{
    let v = chars_of(s);
    let j = trimmed_end_len(&v, c);
    string_from_range(&v, 0, j)
}

/// `s` without its leading occurrences of `c` (`str::trim_start_matches`).
pub fn trim_start_matches(s: &str, c: char) -> (res: String)
    ensures
        res@ == trim_start_char(s@, c),
{
    let v = chars_of(s);
    let n = v.len();
    let mut i: usize = 0;
    while i < n && v[i] == c
        invariant
            n == v@.len(),
            i <= n,
            forall|k: int| 0 <= k < i ==> #[trigger] v@[k] == c,
        decreases n - i,
    {
        i = i + 1;
    }
    proof {
        lemma_trim_start_char_skip(v@, c, i as int);
        assert(v@.skip(i as int) == v@.subrange(i as int, n as int));
    }
    string_from_range(&v, i, n)
}

/// Whether `c` occurs in `v`.
pub fn contains_char(v: &Vec<char>, c: char) -> (b: bool)
    ensures
        b == v@.contains(c),
{
    let mut i: usize = 0;
    while i < v.len()
        invariant
            i <= v.len(),
            forall|k: int| 0 <= k < i ==> v@[k] != c,
        decreases v.len() - i,
    {
        if v[i] == c {
            assert(v@[i as int] == c);
            return true;
        }
        i = i + 1;
    }
    false
}

/// Whether `t` occurs in `v` as a contiguous block.
pub fn contains_chars(v: &Vec<char>, t: &Vec<char>) -> (b: bool)
    ensures
        b == contains_seq(v@, t@),
{
    if t.len() > v.len() {
        return false;
    }
    let mut i: usize = 0;
    while i <= v.len() - t.len()
        invariant
            t.len() <= v.len(),
            i <= v.len() - t.len() + 1,
            forall|p: int|
                0 <= p < i ==> #[trigger] v@.subrange(p, p + t@.len()) != t@,
        decreases v.len() - i,
    {
        let mut k: usize = 0;
        let mut same = true;
        while k < t.len()
            invariant
                i + t.len() <= v.len(),
                k <= t.len(),
                same == (forall|q: int| 0 <= q < k ==> v@[i + q] == t@[q]),
            decreases t.len() - k,
        {
            if v[i + k] != t[k] {
                same = false;
            }
            k = k + 1;
        }
        if same {
            assert(v@.subrange(i as int, i + t@.len()) =~= t@);
            return true;
        } else {
            let ghost q = choose|q: int| 0 <= q < t@.len() && v@[i + q] != t@[q];
            assert(v@.subrange(i as int, i + t@.len())[q] != t@[q]);
        }
        i = i + 1;
    }
    false
}

/// Whether `v` begins with `t`.
pub fn starts_with_chars(v: &Vec<char>, t: &Vec<char>) -> (b: bool)
    ensures
        b == starts_with(v@, t@),
{
    if t.len() > v.len() {
        return false;
    }
    let mut k: usize = 0;
    while k < t.len()
        invariant
            t.len() <= v.len(),
            k <= t.len(),
            forall|q: int| 0 <= q < k ==> v@[q] == t@[q],
        decreases t.len() - k,
    {
        if v[k] != t[k] {
            assert(v@.subrange(0, t@.len() as int)[k as int] != t@[k as int]);
            return false;
        }
        k = k + 1;
    }
    assert(v@.subrange(0, t@.len() as int) =~= t@);
    true
}

/// Whether `a` and `b` hold the same characters.
pub fn str_eq(a: &str, b: &str) -> (r: bool)
    ensures
        r == (a@ == b@),
{
    let x = chars_of(a);
    let y = chars_of(b);
    if x.len() != y.len() {
        return false;
    }
    let mut i: usize = 0;
    while i < x.len()
        invariant
            x@ == a@,
            y@ == b@,
            x.len() == y.len(),
            i <= x.len(),
            forall|k: int| 0 <= k < i ==> x@[k] == y@[k],
        decreases x.len() - i,
    {
        if x[i] != y[i] {
            assert(x@[i as int] != y@[i as int]);
            return false;
        }
        i = i + 1;
    }
    assert(x@ =~= y@);
    true
}

/// The decimal digit for `d` (`0 <= d < 10`).
pub open spec fn digit_char(d: nat) -> char {
    if d == 0 { '0' } else if d == 1 { '1' } else if d == 2 { '2' } else if d == 3 { '3' }
    else if d == 4 { '4' } else if d == 5 { '5' } else if d == 6 { '6' } else if d == 7 { '7' }
    else if d == 8 { '8' } else { '9' }
}

/// The decimal digits of `n`, most significant first, without leading zeros.
pub open spec fn decimal_nat(n: nat) -> Seq<char>
    decreases n,
{
    if n < 10 {
        seq![digit_char(n)]
    } else {
        decimal_nat(n / 10) + seq![digit_char(n % 10)]
    }
}

/// The decimal form of `x`, with a leading `-` when negative (how Rust displays integers).
pub open spec fn decimal(x: int) -> Seq<char> {
    if x < 0 {
        seq!['-'] + decimal_nat((-x) as nat)
    } else {
        decimal_nat(x as nat)
    }
}

/// The number that a string of decimal digits denotes (most significant first).
pub open spec fn digits_value(s: Seq<char>) -> int
    decreases s.len(),
{
    if s.len() == 0 {
        0
    } else {
        digits_value(s.drop_last()) * 10 + (s.last() as u32 - 48)
    }
}

/// The decimal form of a natural number is a non-empty string of the digits
/// `0`..`9` that denotes the number, with no leading zero.
pub proof fn lemma_decimal_nat_denotes(n: nat)
    ensures
        decimal_nat(n).len() >= 1,
        forall|i: int| 0 <= i < decimal_nat(n).len() ==> 48 <= #[trigger] (decimal_nat(n)[i] as u32) <= 57,
        digits_value(decimal_nat(n)) == n,
        decimal_nat(n).len() > 1 ==> decimal_nat(n)[0] as u32 != 48,
    decreases n,
{
    if n < 10 {
        let s = decimal_nat(n);
        assert(s =~= seq![digit_char(n)]);
        assert(s.drop_last() =~= Seq::<char>::empty());
        assert(digits_value(s.drop_last()) == 0);
        assert(digit_char(n) as u32 == 48 + n);
    } else {
        lemma_decimal_nat_denotes(n / 10);
        let p = decimal_nat(n / 10);
        let s = decimal_nat(n);
        assert(s == p + seq![digit_char(n % 10)]);
        assert(s.drop_last() =~= p);
        assert forall|i: int| 0 <= i < s.len() implies 48 <= #[trigger] (s[i] as u32) <= 57 by {
            if i < p.len() {
                assert(s[i] == p[i]);
            }
        }
        assert(s[0] == p[0]);
        if n / 10 < 10 {
            assert(p =~= seq![digit_char(n / 10)]);
            assert(p[0] as u32 == 48 + n / 10);
        } else {
            lemma_decimal_nat_denotes(n / 10 / 10);
            assert(p.len() > 1);
        }
        assert(digit_char(n % 10) as u32 == 48 + n % 10);
        assert(s.last() == digit_char(n % 10));
        assert(digits_value(s) == digits_value(p) * 10 + (n % 10));
    }
}

/// The decimal form of an integer is that of its magnitude, after `-` when it is negative.
pub proof fn lemma_decimal_sign(x: int)
    ensures
        x >= 0 ==> decimal(x) == decimal_nat(x as nat),
        x < 0 ==> decimal(x)[0] == '-' && decimal(x).drop_first() == decimal_nat((-x) as nat),
{
    if x < 0 {
        assert((seq!['-'] + decimal_nat((-x) as nat)).drop_first() =~= decimal_nat((-x) as nat));
    }
}

/// The decimal form of `x` (`i64::to_string`).
#[verifier::external_body]
pub(crate) fn i64_to_string(x: i64) -> (s: String)
    ensures
        s@ == decimal(x as int),
{
    x.to_string()
}

/// The decimal form of `x` (`usize::to_string`).
#[verifier::external_body]
pub(crate) fn usize_to_string(x: usize) -> (s: String)
    ensures
        s@ == decimal(x as int),
{
    x.to_string()
}

} // verus!
