//! Character-level text helpers: whitespace and control classes, trimming,
//! splitting, joining, decimal rendering and lexicographic ordering.
use vstd::prelude::*;
use vstd::string::StringExecFns;

verus! {

/// Unicode `White_Space` characters, as `char::is_whitespace` classifies them.
pub open spec fn is_ws(c: char) -> bool {
    let n = c as u32;
    ||| 0x09 <= n <= 0x0d
    ||| n == 0x20
    ||| n == 0x85
    ||| n == 0xa0
    ||| n == 0x1680
    ||| 0x2000 <= n <= 0x200a
    ||| n == 0x2028
    ||| n == 0x2029
    ||| n == 0x202f
    ||| n == 0x205f
    ||| n == 0x3000
}

/// Characters of general category `Cc`, as `char::is_control` classifies them.
pub open spec fn is_ctrl(c: char) -> bool {
    let n = c as u32;
    n <= 0x1f || (0x7f <= n <= 0x9f)
}

pub open spec fn is_ascii_digit(c: char) -> bool {
    '0' <= c <= '9'
}

pub open spec fn is_ascii_lower(c: char) -> bool {
    'a' <= c <= 'z'
}

pub open spec fn is_ascii_upper(c: char) -> bool {
    'A' <= c <= 'Z'
}

pub open spec fn is_ascii_alnum(c: char) -> bool {
    is_ascii_digit(c) || is_ascii_lower(c) || is_ascii_upper(c)
}

pub fn char_is_whitespace(c: char) -> (b: bool)
    ensures
        b == is_ws(c),
{
    let n = c as u32;
    (0x09 <= n && n <= 0x0d) || n == 0x20 || n == 0x85 || n == 0xa0 || n == 0x1680 || (0x2000
        <= n && n <= 0x200a) || n == 0x2028 || n == 0x2029 || n == 0x202f || n == 0x205f || n
        == 0x3000
}

pub fn char_is_control(c: char) -> (b: bool)
    ensures
        b == is_ctrl(c),
{
    let n = c as u32;
    n <= 0x1f || (0x7f <= n && n <= 0x9f)
}

pub fn char_is_ascii_digit(c: char) -> (b: bool)
    ensures
        b == is_ascii_digit(c),
{
    '0' <= c && c <= '9'
}

pub fn char_is_ascii_alnum(c: char) -> (b: bool)
    ensures
        b == is_ascii_alnum(c),
{
    ('0' <= c && c <= '9') || ('a' <= c && c <= 'z') || ('A' <= c && c <= 'Z')
}

/// ASCII lower-casing of one character; other characters are unchanged.
pub open spec fn ascii_lower(c: char) -> char {
    if is_ascii_upper(c) {
        ((c as u32) + 32) as char
    } else {
        c
    }
}

pub fn char_ascii_lower(c: char) -> (r: char)
    ensures
        r == ascii_lower(c),
{
    if 'A' <= c && c <= 'Z' {
        let n: u8 = (c as u32 + 32) as u8;
        (n as char)
    } else {
        c
    }
}

/// Two texts are equal when ASCII letters are compared without case.
pub open spec fn eq_ignore_ascii_case(a: Seq<char>, b: Seq<char>) -> bool {
    a.len() == b.len() && forall|i: int| 0 <= i < a.len() ==> ascii_lower(a[i]) == ascii_lower(b[i])
}

pub open spec fn has_ctrl(s: Seq<char>) -> bool {
    exists|i: int| 0 <= i < s.len() && is_ctrl(#[trigger] s[i])
}

pub open spec fn has_ws(s: Seq<char>) -> bool {
    exists|i: int| 0 <= i < s.len() && is_ws(#[trigger] s[i])
}

pub open spec fn contains_char(s: Seq<char>, c: char) -> bool {
    exists|i: int| 0 <= i < s.len() && s[i] == c
}

pub open spec fn starts_with(s: Seq<char>, p: Seq<char>) -> bool {
    p.len() <= s.len() && s.subrange(0, p.len() as int) == p
}

pub open spec fn ends_with(s: Seq<char>, p: Seq<char>) -> bool {
    p.len() <= s.len() && s.subrange(s.len() - p.len(), s.len() as int) == p
}

/// Left-to-right line split (`str::lines`): pieces between `\n`, with no
/// trailing empty piece after a final newline.
pub open spec fn lines_acc(
    s: Seq<char>,
    i: int,
    cur: Seq<char>,
    acc: Seq<Seq<char>>,
) -> Seq<Seq<char>>
    decreases s.len() - i,
{
    if i >= s.len() {
        if cur.len() == 0 {
            acc
        } else {
            acc.push(cur)
        }
    } else if s[i] == '\n' {
        lines_acc(s, i + 1, Seq::empty(), acc.push(cur))
    } else {
        lines_acc(s, i + 1, cur.push(s[i]), acc)
    }
}

pub open spec fn lines_of(s: Seq<char>) -> Seq<Seq<char>> {
    lines_acc(s, 0, Seq::empty(), Seq::empty())
}

/// The lines of `s`.
pub fn split_lines(s: &Vec<char>) -> (r: Vec<Vec<char>>)
    ensures
        r@.len() == lines_of(s@).len(),
        forall|k: int| 0 <= k < r@.len() ==> (#[trigger] r@[k])@ == lines_of(s@)[k],
{
    let mut acc: Vec<Vec<char>> = Vec::new();
    let mut cur: Vec<char> = Vec::new();
    let mut i: usize = 0;
    assert(acc@.map_values(|v: Vec<char>| v@) =~= Seq::<Seq<char>>::empty());
    assert(cur@ =~= Seq::<char>::empty());
    while i < s.len()
        invariant
            i <= s.len(),
            lines_of(s@) == lines_acc(s@, i as int, cur@, acc@.map_values(|v: Vec<char>| v@)),
        decreases s.len() - i,
    {
        if s[i] == '\n' {
            let ghost old_acc = acc@;
            let piece = cur;
            acc.push(piece);
            cur = Vec::new();
            assert(acc@.map_values(|v: Vec<char>| v@) =~= old_acc.map_values(|v: Vec<char>| v@).push(piece@));
        } else {
            cur.push(s[i]);
        }
        i = i + 1;
    }
    if cur.len() > 0 {
        let ghost old_acc = acc@;
        let piece = cur;
        acc.push(piece);
        assert(acc@.map_values(|v: Vec<char>| v@) =~= old_acc.map_values(|v: Vec<char>| v@).push(piece@));
    }
    assert(lines_of(s@) == acc@.map_values(|v: Vec<char>| v@));
    acc
}

/// Index of the first `c` at or after `i` (or the length).
pub open spec fn index_of_from(s: Seq<char>, c: char, i: int) -> int
    decreases s.len() - i,
{
    if i >= s.len() {
        s.len() as int
    } else if s[i] == c {
        i
    } else {
        index_of_from(s, c, i + 1)
    }
}

/// Index of the first `c` in `s`, when there is one.
pub fn find_char(s: &Vec<char>, c: char) -> (r: Option<usize>)
    ensures
        index_of_from(s@, c, 0) <= s@.len(),
        r is Some <==> index_of_from(s@, c, 0) < s@.len(),
        r matches Some(k) ==> k == index_of_from(s@, c, 0) && s@[k as int] == c,
{
    let mut i: usize = 0;
    while i < s.len() && s[i] != c
        invariant
            i <= s.len(),
            index_of_from(s@, c, 0) == index_of_from(s@, c, i as int),
        decreases s.len() - i,
    {
        i = i + 1;
    }
    if i < s.len() {
        Some(i)
    } else {
        None
    }
}

/// Index of the first non-whitespace character at or after `i` (or the length).
pub open spec fn first_non_ws(s: Seq<char>, i: int) -> int
    decreases s.len() - i,
{
    if i >= s.len() {
        s.len() as int
    } else if !is_ws(s[i]) {
        i
    } else {
        first_non_ws(s, i + 1)
    }
}

/// One past the last non-whitespace character at or before `j - 1` (or 0).
pub open spec fn last_non_ws_end(s: Seq<char>, j: int) -> int
    decreases j,
{
    if j <= 0 {
        0
    } else if !is_ws(s[j - 1]) {
        j
    } else {
        last_non_ws_end(s, j - 1)
    }
}

/// `s` without leading and trailing whitespace (`str::trim`).
pub open spec fn trim(s: Seq<char>) -> Seq<char> {
    let a = first_non_ws(s, 0);
    let b = last_non_ws_end(s, s.len() as int);
    if a >= b {
        Seq::empty()
    } else {
        s.subrange(a, b)
    }
}

/// Text that is empty once trimmed.
pub open spec fn is_blank(s: Seq<char>) -> bool {
    trim(s).len() == 0
}

/// The characters of `s`, in order.
pub fn chars_of(s: &str) -> (out: Vec<char>)
    ensures
        out@ == s@,
{
    let mut out: Vec<char> = Vec::new();
    for c in it: s.chars()
        invariant
            out@ == it.seq().take(it.index() as int),
    {
        out.push(c);
    }
    out
}

/// `String::push`: appends one character.
#[verifier::external_body]
pub(crate) fn push_char(s: &mut String, c: char)
    ensures
        final(s)@ == old(s)@.push(c),
{
    s.push(c);
}

/// A `String` holding exactly the given characters.
pub fn string_of(v: &Vec<char>) -> (s: String)
    ensures
        s@ == v@,
{
    let mut s = String::new();
    let mut i: usize = 0;
    while i < v.len()
        invariant
            i <= v.len(),
            s@ == v@.take(i as int),
        decreases v.len() - i,
    {
        push_char(&mut s, v[i]);
        assert(v@.take(i as int).push(v@[i as int]) =~= v@.take(i + 1));
        i = i + 1;
    }
    assert(v@.take(v.len() as int) =~= v@);
    s
}

/// A fresh `String` copied from `s`.
pub fn owned(s: &str) -> (r: String)
    ensures
        r@ == s@,
{
    s.to_owned()
}

/// Concatenation of two texts into a new `String`.
pub fn concat2(a: &str, b: &str) -> (r: String)
    ensures
        r@ == a@ + b@,
{
    let mut r = a.to_owned();
    r.append(b);
    r
}

/// Concatenation of three texts into a new `String`.
pub fn concat3(a: &str, b: &str, c: &str) -> (r: String)
    ensures
        r@ == a@ + b@ + c@,
{
    let mut r = a.to_owned();
    r.append(b);
    r.append(c);
    r
}

/// Concatenation of four texts into a new `String`.
pub fn concat4(a: &str, b: &str, c: &str, d: &str) -> (r: String)
    ensures
        r@ == a@ + b@ + c@ + d@,
{
    let mut r = a.to_owned();
    r.append(b);
    r.append(c);
    r.append(d);
    r
}

/// Concatenation of five texts into a new `String`.
pub fn concat5(a: &str, b: &str, c: &str, d: &str, e: &str) -> (r: String)
    ensures
        r@ == a@ + b@ + c@ + d@ + e@,
{
    let mut r = a.to_owned();
    r.append(b);
    r.append(c);
    r.append(d);
    r.append(e);
    r
}

/// Equality of two texts.
pub fn str_eq(a: &str, b: &str) -> (r: bool)
    ensures
        r == (a@ == b@),
{
    let x = chars_of(a);
    let y = chars_of(b);
    seq_eq(&x, &y)
}

/// Equality of two character vectors.
pub fn seq_eq(x: &Vec<char>, y: &Vec<char>) -> (r: bool)
    ensures
        r == (x@ == y@),
{
    if x.len() != y.len() {
        return false;
    }
    let mut i: usize = 0;
    while i < x.len()
        invariant
            x.len() == y.len(),
            i <= x.len(),
            forall|k: int| 0 <= k < i ==> x@[k] == y@[k],
        decreases x.len() - i,
    {
        if x[i] != y[i] {
            return false;
        }
        i = i + 1;
    }
    assert(x@ =~= y@);
    true
}

/// Whether the characters of `s` start with `p`.
pub fn vec_starts_with(s: &Vec<char>, p: &str) -> (r: bool)
    ensures
        r == starts_with(s@, p@),
{
    let pc = chars_of(p);
    if pc.len() > s.len() {
        return false;
    }
    let mut i: usize = 0;
    while i < pc.len()
        invariant
            pc.len() <= s.len(),
            i <= pc.len(),
            pc@ == p@,
            forall|k: int| 0 <= k < i ==> s@[k] == pc@[k],
        decreases pc.len() - i,
    {
        if s[i] != pc[i] {
            assert(s@.subrange(0, pc.len() as int)[i as int] != p@[i as int]);
            return false;
        }
        i = i + 1;
    }
    assert(s@.subrange(0, pc.len() as int) =~= p@);
    true
}

/// Whether `s` contains the character `c`.
pub fn vec_contains_char(s: &Vec<char>, c: char) -> (r: bool)
    ensures
        r == contains_char(s@, c),
{
    let mut i: usize = 0;
    while i < s.len()
        invariant
            i <= s.len(),
            forall|k: int| 0 <= k < i ==> s@[k] != c,
        decreases s.len() - i,
    {
        if s[i] == c {
            return true;
        }
        i = i + 1;
    }
    false
}

/// Whether `s` holds a control character.
pub fn vec_has_control(s: &Vec<char>) -> (r: bool)
    ensures
        r == has_ctrl(s@),
{
    let mut i: usize = 0;
    while i < s.len()
        invariant
            i <= s.len(),
            forall|k: int| 0 <= k < i ==> !is_ctrl(s@[k]),
        decreases s.len() - i,
    {
        if char_is_control(s[i]) {
            return true;
        }
        i = i + 1;
    }
    false
}

/// Whether `s` holds a whitespace character.
pub fn vec_has_whitespace(s: &Vec<char>) -> (r: bool)
    ensures
        r == has_ws(s@),
{
    let mut i: usize = 0;
    while i < s.len()
        invariant
            i <= s.len(),
            forall|k: int| 0 <= k < i ==> !is_ws(s@[k]),
        decreases s.len() - i,
    {
        if char_is_whitespace(s[i]) {
            return true;
        }
        i = i + 1;
    }
    false
}

/// Bounds `(a, b)` of the trimmed part of `s`.
pub fn trim_bounds(s: &Vec<char>) -> (r: (usize, usize))
    ensures
        r.0 <= s.len(),
        r.1 <= s.len(),
        r.0 == first_non_ws(s@, 0),
        r.1 == last_non_ws_end(s@, s@.len() as int),
{
    let mut a: usize = 0;
    while a < s.len() && char_is_whitespace(s[a])
        invariant
            a <= s.len(),
            first_non_ws(s@, 0) == first_non_ws(s@, a as int),
        decreases s.len() - a,
    {
        a = a + 1;
    }
    let mut b: usize = s.len();
    while b > 0 && char_is_whitespace(s[b - 1])
        invariant
            b <= s.len(),
            last_non_ws_end(s@, s@.len() as int) == last_non_ws_end(s@, b as int),
        decreases b,
    {
        b = b - 1;
    }
    (a, b)
}

/// `str::trim` over a character vector.
pub fn trim_vec(s: &Vec<char>) -> (r: Vec<char>)
    ensures
        r@ == trim(s@),
{
    let (a, b) = trim_bounds(s);
    if a >= b {
        return Vec::new();
    }
    slice_of(s, a, b)
}

/// The characters `s[a..b]`.
pub fn slice_of(s: &Vec<char>, a: usize, b: usize) -> (r: Vec<char>)
    requires
        a <= b <= s.len(),
    ensures
        r@ == s@.subrange(a as int, b as int),
{
    let mut r: Vec<char> = Vec::new();
    let mut i: usize = a;
    while i < b
        invariant
            a <= i <= b <= s.len(),
            r@ == s@.subrange(a as int, i as int),
        decreases b - i,
    {
        r.push(s[i]);
        assert(s@.subrange(a as int, i as int).push(s@[i as int]) =~= s@.subrange(
            a as int,
            i + 1,
        ));
        i = i + 1;
    }
    r
}

/// Whether the text is empty once trimmed.
pub fn vec_is_blank(s: &Vec<char>) -> (r: bool)
    ensures
        r == is_blank(s@),
{
    let (a, b) = trim_bounds(s);
    proof {
        if a < b {
            assert(trim(s@).len() == b - a);
        }
    }
    a >= b
}

/// Whether trimming leaves the text unchanged.
pub fn vec_is_trimmed(s: &Vec<char>) -> (r: bool)
    ensures
        r == (trim(s@) == s@),
{
    let (a, b) = trim_bounds(s);
    if a >= b {
        proof {
            if s.len() == 0 {
                assert(trim(s@) =~= s@);
            } else {
                assert(trim(s@).len() == 0);
            }
        }
        return s.len() == 0;
    }
    proof {
        if a == 0 && b == s.len() {
            assert(s@.subrange(0, s.len() as int) =~= s@);
        } else {
            assert(trim(s@).len() != s@.len());
        }
    }
    a == 0 && b == s.len()
}

/// Left-to-right split of `s` on `sep`, keeping empty pieces (`str::split`).
pub open spec fn split_acc(
    s: Seq<char>,
    sep: char,
    i: int,
    cur: Seq<char>,
    acc: Seq<Seq<char>>,
) -> Seq<Seq<char>>
    decreases s.len() - i,
{
    if i >= s.len() {
        acc.push(cur)
    } else if s[i] == sep {
        split_acc(s, sep, i + 1, Seq::empty(), acc.push(cur))
    } else {
        split_acc(s, sep, i + 1, cur.push(s[i]), acc)
    }
}

pub open spec fn split(s: Seq<char>, sep: char) -> Seq<Seq<char>> {
    split_acc(s, sep, 0, Seq::empty(), Seq::empty())
}

/// The pieces of `s` between occurrences of `sep`.
pub fn split_vec(s: &Vec<char>, sep: char) -> (r: Vec<Vec<char>>)
    ensures
        r@.len() == split(s@, sep).len(),
        forall|k: int| 0 <= k < r@.len() ==> (#[trigger] r@[k])@ == split(s@, sep)[k],
{
    let mut acc: Vec<Vec<char>> = Vec::new();
    let mut cur: Vec<char> = Vec::new();
    let mut i: usize = 0;
    assert(acc@.map_values(|v: Vec<char>| v@) =~= Seq::<Seq<char>>::empty());
    assert(cur@ =~= Seq::<char>::empty());
    while i < s.len()
        invariant
            i <= s.len(),
            split(s@, sep) == split_acc(s@, sep, i as int, cur@, acc@.map_values(|v: Vec<char>| v@)),
        decreases s.len() - i,
    {
        if s[i] == sep {
            let ghost old_acc = acc@;
            let piece = cur;
            acc.push(piece);
            cur = Vec::new();
            assert(acc@.map_values(|v: Vec<char>| v@) =~= old_acc.map_values(|v: Vec<char>| v@).push(piece@));
        } else {
            cur.push(s[i]);
        }
        i = i + 1;
    }
    let ghost old_acc = acc@;
    let piece = cur;
    acc.push(piece);
    assert(acc@.map_values(|v: Vec<char>| v@) =~= old_acc.map_values(|v: Vec<char>| v@).push(piece@));
    assert(split(s@, sep) == acc@.map_values(|v: Vec<char>| v@));
    acc
}

/// Pieces joined with `sep` between them.
pub open spec fn join(parts: Seq<Seq<char>>, sep: char) -> Seq<char>
    decreases parts.len(),
{
    if parts.len() == 0 {
        Seq::empty()
    } else if parts.len() == 1 {
        parts[0]
    } else {
        join(parts.drop_last(), sep).push(sep) + parts.last()
    }
}

/// `parts.join("/")`-style joining of character vectors.
pub fn join_vec(parts: &Vec<Vec<char>>, sep: char) -> (r: Vec<char>)
    ensures
        r@ == join(parts@.map_values(|v: Vec<char>| v@), sep),
{
    let ghost views = parts@.map_values(|v: Vec<char>| v@);
    let mut r: Vec<char> = Vec::new();
    let mut i: usize = 0;
    while i < parts.len()
        invariant
            i <= parts.len(),
            views == parts@.map_values(|v: Vec<char>| v@),
            r@ == join(views.take(i as int), sep),
        decreases parts.len() - i,
    {
        let ghost before = r@;
        if i > 0 {
            r.push(sep);
        }
        let part = &parts[i];
        let mut k: usize = 0;
        let ghost mid = r@;
        while k < part.len()
            invariant
                k <= part.len(),
                r@ == mid + part@.take(k as int),
            decreases part.len() - k,
        {
            r.push(part[k]);
            assert(mid + part@.take(k as int).push(part@[k as int]) =~= mid + part@.take(k + 1));
            k = k + 1;
        }
        assert(part@.take(part.len() as int) =~= part@);
        assert(views.take(i + 1).drop_last() =~= views.take(i as int));
        assert(views.take(i + 1).last() == part@);
        if i == 0 {
            assert(views.take(1) =~= seq![part@]);
            assert(mid =~= Seq::<char>::empty());
        }
        i = i + 1;
    }
    assert(views.take(parts.len() as int) =~= views);
    r
}

/// Decimal digits of a natural number.
pub open spec fn nat_digits(n: nat) -> Seq<char>
    decreases n,
{
    if n < 10 {
        seq![digit_char(n)]
    } else {
        nat_digits(n / 10).push(digit_char(n % 10))
    }
}

pub open spec fn digit_char(d: nat) -> char {
    (('0' as u32) + d) as char
}

/// Decimal rendering of an integer, with a leading `-` when negative.
pub open spec fn int_decimal(i: int) -> Seq<char> {
    if i < 0 {
        seq!['-'] + nat_digits((-i) as nat)
    } else {
        nat_digits(i as nat)
    }
}

/// Decimal rendering of a `u64`.
pub fn u64_decimal(n: u64) -> (r: Vec<char>)
    ensures
        r@ == nat_digits(n as nat),
    decreases n,
{
    let d: u64 = n % 10;
    let c = ((48 + d) as u8) as char;
    if n < 10 {
        let mut r: Vec<char> = Vec::new();
        r.push(c);
        assert(r@ =~= seq![digit_char(n as nat)]);
        r
    } else {
        let mut r = u64_decimal(n / 10);
        r.push(c);
        r
    }
}

/// Decimal rendering of an `i64` (`i64::to_string`).
pub fn i64_decimal(i: i64) -> (r: String)
    ensures
        r@ == int_decimal(i as int),
{
    if i < 0 {
        let m: u64 = if i == i64::MIN {
            9223372036854775808u64
        } else {
            (-i) as u64
        };
        let digits = u64_decimal(m);
        let mut r = String::new();
        push_char(&mut r, '-');
        let rest = string_of(&digits);
        r.append(rest.as_str());
        assert(r@ =~= seq!['-'] + nat_digits((-(i as int)) as nat));
        r
    } else {
        let digits = u64_decimal(i as u64);
        string_of(&digits)
    }
}

/// Decimal rendering of a `usize` (`usize::to_string`).
pub fn usize_decimal(n: usize) -> (r: String)
    ensures
        r@ == nat_digits(n as nat),
{
    let digits = u64_decimal(n as u64);
    string_of(&digits)
}

/// Strict lexicographic order on texts by code point (the order of `String`).
pub open spec fn text_lt(a: Seq<char>, b: Seq<char>) -> bool {
    exists|k: int|
        0 <= k <= a.len() && k <= b.len() && a.subrange(0, k) == b.subrange(0, k) && ((k
            == a.len() && k < b.len()) || (k < a.len() && k < b.len() && a[k] < b[k]))
}

/// Exact comparison of two character sequences.
pub fn vec_text_lt(a: &Vec<char>, b: &Vec<char>) -> (r: bool)
    ensures
        r == text_lt(a@, b@),
{
    let mut k: usize = 0;
    while k < a.len() && k < b.len() && a[k] == b[k]
        invariant
            k <= a.len(),
            k <= b.len(),
            a@.subrange(0, k as int) == b@.subrange(0, k as int),
        decreases a.len() - k,
    {
        assert(a@.subrange(0, k + 1) =~= a@.subrange(0, k as int).push(a@[k as int]));
        assert(b@.subrange(0, k + 1) =~= b@.subrange(0, k as int).push(b@[k as int]));
        k = k + 1;
    }
    let r = if k == a.len() {
        k < b.len()
    } else if k == b.len() {
        false
    } else {
        a[k] < b[k]
    };
    proof {
        if r {
            assert(text_lt(a@, b@));
        } else {
            if text_lt(a@, b@) {
                let j = choose|j: int|
                    0 <= j <= a@.len() && j <= b@.len() && a@.subrange(0, j) == b@.subrange(0, j)
                        && ((j == a@.len() && j < b@.len()) || (j < a@.len() && j < b@.len() && a@[j] < b@[j]));
                lemma_common_prefix(a@, b@, j, k as int);
            }
        }
    }
    r
}

/// Two common prefixes: the shorter one agrees where the longer one reaches.
proof fn lemma_common_prefix(a: Seq<char>, b: Seq<char>, j: int, k: int)
    requires
        0 <= j <= a.len(),
        j <= b.len(),
        0 <= k <= a.len(),
        k <= b.len(),
        a.subrange(0, j) == b.subrange(0, j),
        a.subrange(0, k) == b.subrange(0, k),
        k == a.len() || k == b.len() || a[k] != b[k],
    ensures
        j <= k,
        j < k ==> a[j] == b[j],
{
    if j > k {
        assert(a.subrange(0, j)[k] == a[k]);
        assert(b.subrange(0, j)[k] == b[k]);
        assert(a.subrange(0, j)[k] == b.subrange(0, j)[k]);
    }
    if j < k {
        assert(a.subrange(0, k)[j] == a[j]);
        assert(b.subrange(0, k)[j] == b[j]);
        assert(a.subrange(0, k)[j] == b.subrange(0, k)[j]);
    }
}

/// The text order is irreflexive.
pub proof fn lemma_text_lt_irreflexive(a: Seq<char>)
    ensures
        !text_lt(a, a),
{
}

/// The text order is transitive.
pub proof fn lemma_text_lt_transitive(a: Seq<char>, b: Seq<char>, c: Seq<char>)
    requires
        text_lt(a, b),
        text_lt(b, c),
    ensures
        text_lt(a, c),
{
    let j = choose|j: int|
        0 <= j <= a.len() && j <= b.len() && a.subrange(0, j) == b.subrange(0, j) && ((j
            == a.len() && j < b.len()) || (j < a.len() && j < b.len() && a[j] < b[j]));
    let k = choose|k: int|
        0 <= k <= b.len() && k <= c.len() && b.subrange(0, k) == c.subrange(0, k) && ((k
            == b.len() && k < c.len()) || (k < b.len() && k < c.len() && b[k] < c[k]));
    let m = if j < k {
        j
    } else {
        k
    };
    assert(a.subrange(0, m) =~= c.subrange(0, m)) by {
        assert forall|i: int| 0 <= i < m implies a.subrange(0, m)[i] == c.subrange(0, m)[i] by {
            assert(a.subrange(0, j)[i] == b.subrange(0, j)[i]);
            assert(b.subrange(0, k)[i] == c.subrange(0, k)[i]);
        }
    }
    if j < k {
        assert(b.subrange(0, k)[j] == c.subrange(0, k)[j]);
    } else if k < j {
        assert(a.subrange(0, j)[k] == b.subrange(0, j)[k]);
    }
    assert(text_lt(a, c));
}

/// The text order is total on distinct texts.
pub proof fn lemma_text_lt_total(a: Seq<char>, b: Seq<char>)
    ensures
        a == b || text_lt(a, b) || text_lt(b, a),
{
    if a != b {
        let n = if a.len() < b.len() {
            a.len() as int
        } else {
            b.len() as int
        };
        if forall|i: int| 0 <= i < n ==> a[i] == b[i] {
            assert(a.subrange(0, n) =~= b.subrange(0, n));
            if a.len() == b.len() {
                assert(a =~= b);
            }
        } else {
            let i = choose|i: int| 0 <= i < n && a[i] != b[i];
            lemma_first_difference(a, b, i);
        }
    }
}

proof fn lemma_first_difference(a: Seq<char>, b: Seq<char>, i: int)
    requires
        0 <= i < a.len(),
        i < b.len(),
        a[i] != b[i],
    ensures
        text_lt(a, b) || text_lt(b, a),
    decreases i,
{
    if exists|j: int| 0 <= j < i && a[j] != b[j] {
        let j = choose|j: int| 0 <= j < i && a[j] != b[j];
        lemma_first_difference(a, b, j);
    } else {
        assert(a.subrange(0, i) =~= b.subrange(0, i));
        if a[i] < b[i] {
            assert(text_lt(a, b));
        } else {
            assert(b[i] < a[i]);
            assert(b.subrange(0, i) == a.subrange(0, i));
            assert(text_lt(b, a));
        }
    }
}

/// The text order is asymmetric.
pub proof fn lemma_text_lt_asymmetric(a: Seq<char>, b: Seq<char>)
    requires
        text_lt(a, b),
    ensures
        !text_lt(b, a),
{
    if text_lt(b, a) {
        lemma_text_lt_transitive(a, b, a);
    }
}

/// The views of a sequence of strings.
pub open spec fn views(s: Seq<String>) -> Seq<Seq<char>> {
    s.map_values(|x: String| x@)
}

/// Strictly increasing in the text order.
pub open spec fn strictly_sorted(s: Seq<Seq<char>>) -> bool {
    forall|i: int, j: int| 0 <= i < j < s.len() ==> text_lt(#[trigger] s[i], #[trigger] s[j])
}

pub proof fn lemma_insert_contains<T>(s: Seq<T>, pos: int, v: T, x: T)
    requires
        0 <= pos <= s.len(),
    ensures
        s.insert(pos, v).contains(x) <==> (s.contains(x) || x == v),
{
    let t = s.insert(pos, v);
    if t.contains(x) {
        let k = choose|k: int| 0 <= k < t.len() && t[k] == x;
        if k < pos {
            assert(s[k] == x);
        } else if k > pos {
            assert(s[k - 1] == x);
        }
    }
    if s.contains(x) {
        let k = choose|k: int| 0 <= k < s.len() && s[k] == x;
        if k < pos {
            assert(t[k] == x);
        } else {
            assert(t[k + 1] == x);
        }
    }
    if x == v {
        assert(t[pos] == x);
    }
}

pub proof fn lemma_take_next_contains<T>(s: Seq<T>, i: int, x: T)
    requires
        0 <= i < s.len(),
    ensures
        s.take(i + 1).contains(x) <==> (s.take(i).contains(x) || x == s[i]),
{
    assert(s.take(i + 1) =~= s.take(i).push(s[i]));
    let t = s.take(i);
    if t.push(s[i]).contains(x) {
        let k = choose|k: int| 0 <= k < t.len() + 1 && t.push(s[i])[k] == x;
        if k < i {
            assert(t[k] == x);
        }
    }
    if t.contains(x) {
        let k = choose|k: int| 0 <= k < t.len() && t[k] == x;
        assert(t.push(s[i])[k] == x);
    }
    if x == s[i] {
        assert(t.push(s[i])[i] == x);
    }
}

/// Sorts `values` and removes duplicates (`sort_unstable` then `dedup`).
pub fn sort_dedup_strings(values: &mut Vec<String>)
    ensures
        strictly_sorted(views(final(values)@)),
        forall|x: Seq<char>|
            views(final(values)@).contains(x) <==> views(old(values)@).contains(x),
{
    let ghost input = views(values@);
    let mut out: Vec<String> = Vec::new();
    let mut out_chars: Vec<Vec<char>> = Vec::new();
    let mut i: usize = 0;
    while i < values.len()
        invariant
            i <= values.len(),
            input == views(values@),
            out@.len() == out_chars@.len(),
            forall|k: int| 0 <= k < out@.len() ==> (#[trigger] out@[k])@ == out_chars@[k]@,
            strictly_sorted(views(out@)),
            forall|x: Seq<char>| views(out@).contains(x) <==> input.take(i as int).contains(x),
        decreases values.len() - i,
    {
        let s = values[i].clone();
        let sc = chars_of(s.as_str());
        let mut pos: usize = 0;
        while pos < out_chars.len() && vec_text_lt(&out_chars[pos], &sc)
            invariant
                pos <= out_chars.len(),
                out@.len() == out_chars@.len(),
                forall|k: int| 0 <= k < out@.len() ==> (#[trigger] out@[k])@ == out_chars@[k]@,
                forall|k: int| 0 <= k < pos ==> text_lt((#[trigger] out@[k])@, sc@),
            decreases out_chars.len() - pos,
        {
            pos = pos + 1;
        }
        let dup = pos < out_chars.len() && seq_eq(&out_chars[pos], &sc);
        let ghost before = views(out@);
        proof {
            if pos < out_chars.len() {
                assert(before[pos as int] == out@[pos as int]@);
                lemma_text_lt_total(out_chars@[pos as int]@, sc@);
            }
        }
        if !dup {
            out.insert(pos, s);
            out_chars.insert(pos, sc);
            proof {
                let after = views(out@);
                assert(after =~= before.insert(pos as int, sc@));
                assert forall|a: int, b: int| 0 <= a < b < after.len() implies text_lt(
                    #[trigger] after[a],
                    #[trigger] after[b],
                ) by {
                    if b < pos {
                    } else if a < pos && b == pos {
                        assert(text_lt(out@[a]@, sc@));
                    } else if a < pos && b > pos {
                        assert(text_lt(before[a], sc@));
                        if pos < before.len() {
                            assert(text_lt(sc@, before[pos as int]));
                            if b - 1 > pos {
                                assert(text_lt(before[pos as int], before[b - 1]));
                                lemma_text_lt_transitive(sc@, before[pos as int], before[b - 1]);
                            }
                        }
                        lemma_text_lt_transitive(before[a], sc@, before[b - 1]);
                    } else if a == pos {
                        assert(text_lt(sc@, before[pos as int]));
                        if b - 1 > pos {
                            lemma_text_lt_transitive(sc@, before[pos as int], before[b - 1]);
                        }
                    } else {
                    }
                }
                assert forall|x: Seq<char>| after.contains(x) <==> input.take(i + 1).contains(
                    x,
                ) by {
                    lemma_insert_contains(before, pos as int, sc@, x);
                    lemma_take_next_contains(input, i as int, x);
                }
            }
        } else {
            proof {
                assert(input.take(i + 1) =~= input.take(i as int).push(sc@));
                assert(before[pos as int] == sc@);
                assert forall|x: Seq<char>| before.contains(x) <==> input.take(i + 1).contains(
                    x,
                ) by {
                    lemma_take_next_contains(input, i as int, x);
                }
            }
        }
        i = i + 1;
    }
    proof {
        assert(input.take(values.len() as int) =~= input);
    }
    *values = out;
}

} // verus!
