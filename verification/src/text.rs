//! Character-level string helpers shared by the rest of the library.

use vstd::prelude::*;

verus! {

/// Characters of `s`, in order.
pub fn chars_of(s: &str) -> (r: Vec<char>)
    ensures
        r@ == s@,
{
    let mut v: Vec<char> = Vec::new();
    for c in it: s.chars()
        invariant
            it.seq() == s@,
            v@ == it.seq().take(it.index() as int),
    {
        v.push(c);
    }
    v
}

/// Appends one character with `String::push`.
#[verifier::external_body]
pub(crate) fn push_char(s: &mut String, c: char)
    ensures
        final(s)@ == old(s)@.push(c),
{
    s.push(c);
}

/// Appends a string slice with `String::push_str`.
#[verifier::external_body]
pub(crate) fn push_str(s: &mut String, t: &str)
    ensures
        final(s)@ == old(s)@ + t@,
{
    s.push_str(t);
}

/// An owned copy of `s`.
pub fn owned(s: &str) -> (r: String)
    ensures
        r@ == s@,
{
    s.to_owned()
}

/// A copy of an optional string.
pub fn clone_opt(o: &Option<String>) -> (r: Option<String>)
    ensures
        r == *o,
{
    match o {
        Some(s) => Some(s.clone()),
        None => None,
    }
}

/// The string made of the characters of `v`.
pub fn string_of(v: &[char]) -> (r: String)
    ensures
        r@ == v@,
{
    let mut s = String::new();
    let n = v.len();
    let mut i: usize = 0;
    while i < n
        invariant
            n == v@.len(),
            i <= n,
            s@ == v@.take(i as int),
        decreases n - i,
    {
        push_char(&mut s, v[i]);
        i = i + 1;
        assert(s@ == v@.take(i as int));
    }
    assert(v@.take(n as int) == v@);
    s
}

/// `p` occurs in `s` starting at position `i`.
pub open spec fn matches_at(s: Seq<char>, i: int, p: Seq<char>) -> bool {
    &&& 0 <= i
    &&& i + p.len() <= s.len()
    &&& forall|k: int| 0 <= k < p.len() ==> #[trigger] s[i + k] == p[k]
}

/// `p` occurs somewhere in `s` (the empty pattern occurs in every string).
pub open spec fn contains(s: Seq<char>, p: Seq<char>) -> bool {
    exists|i: int| matches_at(s, i, p)
}

/// `s` begins with `p`.
pub open spec fn starts_with(s: Seq<char>, p: Seq<char>) -> bool {
    matches_at(s, 0, p)
}

/// `s` ends with `p`.
pub open spec fn ends_with(s: Seq<char>, p: Seq<char>) -> bool {
    p.len() <= s.len() && matches_at(s, s.len() - p.len(), p)
}

/// Whether `p` occurs in `s` at position `i`.
pub fn matches_at_exec(s: &[char], i: usize, p: &[char]) -> (r: bool)
    ensures
        r == matches_at(s@, i as int, p@),
{
    if i > s.len() || p.len() > s.len() - i {
        return false;
    }
    let m = p.len();
    let mut k: usize = 0;
    while k < m
        invariant
            m == p@.len(),
            i + m <= s.len(),
            s.len() == s@.len(),
            k <= m,
            forall|j: int| 0 <= j < k ==> #[trigger] s@[i + j] == p@[j],
        decreases m - k,
    {
        if s[i + k] != p[k] {
            return false;
        }
        k = k + 1;
    }
    true
}

/// Whether `p` occurs in `s`.
pub fn contains_exec(s: &[char], p: &[char]) -> (r: bool)
    ensures
        r == contains(s@, p@),
{
    if p.len() > s.len() {
        return false;
    }
    let last = s.len() - p.len();
    let mut i: usize = 0;
    loop
        invariant
            last == s@.len() - p@.len(),
            p@.len() <= s@.len(),
            i <= last,
            forall|j: int| 0 <= j < i ==> !matches_at(s@, j, p@),
        decreases last - i,
    {
        if matches_at_exec(s, i, p) {
            return true;
        }
        if i == last {
            assert forall|j: int| !matches_at(s@, j, p@) by {
                if 0 <= j <= last {
                }
            }
            return false;
        }
        i = i + 1;
    }
}

/// Whether the string `s` contains the string `p`.
pub fn str_contains(s: &str, p: &str) -> (r: bool)
    ensures
        r == contains(s@, p@),
{
    let sv = chars_of(s);
    let pv = chars_of(p);
    contains_exec(sv.as_slice(), pv.as_slice())
}

/// Whether the string `s` begins with `p`.
pub fn str_starts_with(s: &str, p: &str) -> (r: bool)
    ensures
        r == starts_with(s@, p@),
{
    let sv = chars_of(s);
    let pv = chars_of(p);
    matches_at_exec(sv.as_slice(), 0, pv.as_slice())
}

/// Whether the string `s` ends with `p`.
pub fn str_ends_with(s: &str, p: &str) -> (r: bool)
    ensures
        r == ends_with(s@, p@),
{
    let sv = chars_of(s);
    let pv = chars_of(p);
    if pv.len() > sv.len() {
        return false;
    }
    matches_at_exec(sv.as_slice(), sv.len() - pv.len(), pv.as_slice())
}

/// Whether two strings are equal.
pub fn str_eq(a: &str, b: &str) -> (r: bool)
    ensures
        r == (a@ == b@),
{
    let av = chars_of(a);
    let bv = chars_of(b);
    if av.len() != bv.len() {
        assert(av@.len() != bv@.len());
        return false;
    }
    let n = av.len();
    let mut i: usize = 0;
    while i < n
        invariant
            n == av@.len(),
            n == bv@.len(),
            av@ == a@,
            bv@ == b@,
            i <= n,
            forall|j: int| 0 <= j < i ==> av@[j] == bv@[j],
        decreases n - i,
    {
        if av[i] != bv[i] {
            assert(av@[i as int] != bv@[i as int]);
            return false;
        }
        i = i + 1;
    }
    assert(av@ =~= bv@);
    true
}

/// The pieces joined by `sep`.
pub open spec fn joined(items: Seq<Seq<char>>, sep: Seq<char>) -> Seq<char>
    decreases items.len(),
{
    if items.len() == 0 {
        Seq::empty()
    } else if items.len() == 1 {
        items[0]
    } else {
        joined(items.drop_last(), sep) + sep + items.last()
    }
}

/// What `str::to_lowercase` returns for a string: the Unicode lowercase mapping.
pub uninterp spec fn lowercase(s: Seq<char>) -> Seq<char>;

/// The ASCII lowercase form of a character: `A`–`Z` become `a`–`z`, every other
/// character stays.
pub open spec fn ascii_lower_char(c: char) -> char {
    if 'A' <= c && c <= 'Z' {
        ((c as u32) + 32) as char
    } else {
        c
    }
}

/// Whether every character of `s` is ASCII.
pub open spec fn all_ascii(s: Seq<char>) -> bool {
    forall|i: int| 0 <= i < s.len() ==> (#[trigger] s[i] as u32) < 128
}

/// The ASCII lowercase form of a text, character by character.
pub open spec fn ascii_lower(s: Seq<char>) -> Seq<char> {
    s.map_values(|c: char| ascii_lower_char(c))
}

/// Lowercases `s` with `str::to_lowercase`. For an ASCII text this is the ASCII lowercase
/// form, as std documents: ASCII letters become lowercase and every other ASCII character
/// stays as it is.
#[verifier::external_body]
pub(crate) fn to_lowercase(s: &str) -> (r: String)
    ensures
        r@ == lowercase(s@),
        all_ascii(s@) ==> r@ == ascii_lower(s@),
{
    s.to_lowercase()
}

/// The Unicode `White_Space` property, which `char::is_whitespace` tests.
pub open spec fn is_ws(c: char) -> bool {
    ||| ('\u{9}' <= c && c <= '\u{d}')
    ||| c == ' '
    ||| c == '\u{85}'
    ||| c == '\u{a0}'
    ||| c == '\u{1680}'
    ||| ('\u{2000}' <= c && c <= '\u{200a}')
    ||| c == '\u{2028}'
    ||| c == '\u{2029}'
    ||| c == '\u{202f}'
    ||| c == '\u{205f}'
    ||| c == '\u{3000}'
}

/// Whether `c` is white space.
pub fn is_whitespace(c: char) -> (r: bool)
    ensures
        r == is_ws(c),
{
    ('\u{9}' <= c && c <= '\u{d}') || c == ' ' || c == '\u{85}' || c == '\u{a0}' || c == '\u{1680}'
        || ('\u{2000}' <= c && c <= '\u{200a}') || c == '\u{2028}' || c == '\u{2029}'
        || c == '\u{202f}' || c == '\u{205f}' || c == '\u{3000}'
}

/// `s` without its leading white space.
pub open spec fn trim_start(s: Seq<char>) -> Seq<char>
    decreases s.len(),
{
    if s.len() > 0 && is_ws(s[0]) {
        trim_start(s.drop_first())
    } else {
        s
    }
}

/// `s` without its trailing white space.
pub open spec fn trim_end(s: Seq<char>) -> Seq<char>
    decreases s.len(),
{
    if s.len() > 0 && is_ws(s.last()) {
        trim_end(s.drop_last())
    } else {
        s
    }
}

/// `s` without leading and trailing white space, as `str::trim` gives it.
pub open spec fn trim(s: Seq<char>) -> Seq<char> {
    trim_end(trim_start(s))
}

/// Characters of `v` without leading and trailing white space.
pub fn trim_chars(v: &[char]) -> (r: Vec<char>)
    ensures
        r@ == trim(v@),
{
    let n = v.len();
    let mut a: usize = 0;
    assert(v@.subrange(0, n as int) == v@);
    while a < n && is_whitespace(v[a])
        invariant
            n == v@.len(),
            a <= n,
            trim_start(v@) == trim_start(v@.subrange(a as int, n as int)),
        decreases n - a,
    {
        assert(v@.subrange(a as int, n as int).drop_first() == v@.subrange(a + 1, n as int));
        a = a + 1;
    }
    assert(trim_start(v@) == v@.subrange(a as int, n as int));
    let mut b: usize = n;
    while b > a && is_whitespace(v[b - 1])
        invariant
            n == v@.len(),
            a <= b <= n,
            trim(v@) == trim_end(v@.subrange(a as int, b as int)),
        decreases b - a,
    {
        assert(v@.subrange(a as int, b as int).drop_last() == v@.subrange(a as int, b - 1));
        b = b - 1;
    }
    let mut r: Vec<char> = Vec::new();
    let mut i: usize = a;
    while i < b
        invariant
            n == v@.len(),
            a <= i <= b <= n,
            r@ == v@.subrange(a as int, i as int),
        decreases b - i,
    {
        r.push(v[i]);
        i = i + 1;
        assert(r@ == v@.subrange(a as int, i as int));
    }
    r
}

/// `s` trimmed of white space at both ends, as `str::trim` does.
pub fn str_trim(s: &str) -> (r: String)
    ensures
        r@ == trim(s@),
{
    let v = chars_of(s);
    let t = trim_chars(v.as_slice());
    string_of(t.as_slice())
}

/// `s` with every non-overlapping occurrence of `p`, scanned from the left, replaced by `r`,
/// as `str::replace` does for a non-empty pattern.
pub open spec fn replace(s: Seq<char>, p: Seq<char>, r: Seq<char>) -> Seq<char>
    decreases s.len(),
{
    if p.len() == 0 || s.len() == 0 {
        s
    } else if matches_at(s, 0, p) {
        r + replace(s.skip(p.len() as int), p, r)
    } else {
        seq![s[0]] + replace(s.drop_first(), p, r)
    }
}

/// Replaces every occurrence of `p` in `v` by `r`, scanning from the left.
pub fn replace_chars(v: &[char], p: &[char], r: &[char]) -> (out: Vec<char>)
    requires
        p@.len() > 0,
    ensures
        out@ == replace(v@, p@, r@),
{
    let n = v.len();
    let mut out: Vec<char> = Vec::new();
    let mut i: usize = 0;
    assert(v@.skip(0) == v@);
    while i < n
        invariant
            n == v@.len(),
            p@.len() > 0,
            i <= n,
            out@ + replace(v@.skip(i as int), p@, r@) == replace(v@, p@, r@),
        decreases n - i,
    {
        let ghost rest = v@.skip(i as int);
        if matches_at_exec(v, i, p) {
            assert forall|k: int| 0 <= k < p@.len() implies rest[0 + k] == p@[k] by {
                assert(v@[i + k] == p@[k]);
            }
            assert(matches_at(rest, 0, p@));
            assert(rest.skip(p@.len() as int) == v@.skip(i + p@.len()));
            let mut k: usize = 0;
            let ghost before = out@;
            while k < r.len()
                invariant
                    out@ == before + r@.take(k as int),
                    k <= r@.len(),
                decreases r@.len() - k,
            {
                out.push(r[k]);
                k = k + 1;
                assert(out@ == before + r@.take(k as int));
            }
            assert(r@.take(r@.len() as int) == r@);
            i = i + p.len();
        } else {
            assert(!matches_at(rest, 0, p@)) by {
                if matches_at(rest, 0, p@) {
                    assert forall|k: int| 0 <= k < p@.len() implies v@[i + k] == p@[k] by {
                        assert(rest[0 + k] == p@[k]);
                    }
                }
            }
            assert(rest.drop_first() == v@.skip(i + 1));
            out.push(v[i]);
            i = i + 1;
        }
    }
    assert(v@.skip(n as int).len() == 0);
    out
}

/// `s` with every occurrence of the non-empty pattern `p` replaced by `r`.
pub fn str_replace(s: &str, p: &str, r: &str) -> (out: String)
    requires
        p@.len() > 0,
    ensures
        out@ == replace(s@, p@, r@),
{
    let sv = chars_of(s);
    let pv = chars_of(p);
    let rv = chars_of(r);
    let o = replace_chars(sv.as_slice(), pv.as_slice(), rv.as_slice());
    string_of(o.as_slice())
}

/// The ASCII digit for `d < 10`.
pub open spec fn digit_char(d: int) -> char {
    (d + 48) as char
}

/// Decimal notation of `n`, as `Display` prints an unsigned integer.
pub open spec fn decimal(n: nat) -> Seq<char>
    decreases n,
{
    if n < 10 {
        seq![digit_char(n as int)]
    } else {
        decimal(n / 10).push(digit_char((n % 10) as int))
    }
}

/// Decimal notation of `n`.
pub fn u64_to_decimal(n: u64) -> (r: String)
    ensures
        r@ == decimal(n as nat),
    decreases n,
{
    let d: u8 = (n % 10) as u8;
    let c: char = (48u8 + d) as char;
    assert(c == digit_char((n % 10) as int));
    if n < 10 {
        let mut s = String::new();
        push_char(&mut s, c);
        assert(s@ == seq![c]);
        s
    } else {
        let mut s = u64_to_decimal(n / 10);
        push_char(&mut s, c);
        s
    }
}

/// `r` after reading `c` when white space runs become single spaces: white space adds a
/// space unless at the start or after a space.
pub open spec fn squeeze_step(r: Seq<char>, c: char) -> Seq<char> {
    if is_ws(c) {
        if r.len() == 0 || r.last() == ' ' {
            r
        } else {
            r.push(' ')
        }
    } else {
        r.push(c)
    }
}

/// `s` with leading white space dropped and each run of white space turned into one space.
pub open spec fn squeezed(s: Seq<char>) -> Seq<char>
    decreases s.len(),
{
    if s.len() == 0 {
        s
    } else {
        squeeze_step(squeezed(s.drop_last()), s.last())
    }
}

/// The words of `s` joined by single spaces, as `split_whitespace` and `join(" ")` give
/// them.
pub open spec fn words_joined(s: Seq<char>) -> Seq<char> {
    let q = squeezed(s);
    if q.len() > 0 && q.last() == ' ' {
        q.drop_last()
    } else {
        q
    }
}

/// The words of `s` joined by single spaces.
pub fn join_words(s: &str) -> (r: String)
    ensures
        r@ == words_joined(s@),
{
    let cs = chars_of(s);
    let mut out: Vec<char> = Vec::new();
    let mut i: usize = 0;
    while i < cs.len()
        invariant
            i <= cs@.len(),
            cs@ == s@,
            out@ == squeezed(cs@.take(i as int)),
        decreases cs@.len() - i,
    {
        let c = cs[i];
        let ghost pre = cs@.take(i + 1);
        assert(pre.drop_last() == cs@.take(i as int));
        assert(pre.last() == c);
        if is_whitespace(c) {
            if out.len() > 0 && out[out.len() - 1] != ' ' {
                out.push(' ');
            }
        } else {
            out.push(c);
        }
        i = i + 1;
    }
    assert(cs@.take(cs@.len() as int) == cs@);
    if out.len() > 0 && out[out.len() - 1] == ' ' {
        out.pop();
    }
    string_of(out.as_slice())
}

/// What `char::is_numeric` answers: the Unicode `Numeric_Type` property.
pub uninterp spec fn numeric(c: char) -> bool;

/// Tests a character with `char::is_numeric`.
#[verifier::external_body]
pub(crate) fn is_numeric(c: char) -> (r: bool)
    ensures
        r == numeric(c),
{
    c.is_numeric()
}

/// Decimal notation of a signed integer.
pub open spec fn signed_decimal(n: int) -> Seq<char> {
    if n < 0 {
        seq!['-'] + decimal((-n) as nat)
    } else {
        decimal(n as nat)
    }
}

/// Decimal notation of `n`, with a minus sign when negative.
pub fn i64_to_decimal(n: i64) -> (r: String)
    ensures
        r@ == signed_decimal(n as int),
{
    if n < 0 {
        let m: i128 = 0 - (n as i128);
        let mut s = String::new();
        push_char(&mut s, '-');
        let d = u64_to_decimal(m as u64);
        push_str(&mut s, d.as_str());
        s
    } else {
        u64_to_decimal(n as u64)
    }
}

/// Whether `s` has no characters.
pub fn str_is_empty(s: &str) -> (r: bool)
    ensures
        r == (s@.len() == 0),
{
    chars_of(s).len() == 0
}

/// Length in bytes of the UTF-8 encoding of `s`, as `str::len` gives it.
pub open spec fn utf8_len(s: Seq<char>) -> usize {
    vstd::utf8::encode_utf8(s).len() as usize
}

/// Length in bytes of `s`.
pub fn byte_len(s: &str) -> (r: usize)
    ensures
        r == utf8_len(s@),
{
    s.len()
}

/// `s` without the occurrences of `p`.
pub fn remove_all(s: &str, p: &str) -> (r: String)
    ensures
        r@ == replace(s@, p@, Seq::empty()),
{
    let pc = chars_of(p);
    if pc.len() == 0 {
        assert(replace(s@, p@, Seq::empty()) == s@);
        owned(s)
    } else {
        proof {
            reveal_strlit("");
            assert(""@ =~= Seq::<char>::empty());
        }
        str_replace(s, p, "")
    }
}

/// `s` cut to its first `max` characters followed by `suffix` when it is longer than `max`
/// characters, else `s`.
pub open spec fn truncated(s: Seq<char>, max: nat, suffix: Seq<char>) -> Seq<char> {
    if s.len() > max {
        s.take(max as int) + suffix
    } else {
        s
    }
}

/// Cuts `s` to its first `max` characters and appends `suffix` when it is longer.
pub fn truncate_with_suffix(s: &str, max: usize, suffix: &str) -> (r: String)
    ensures
        r@ == truncated(s@, max as nat, suffix@),
{
    let cs = chars_of(s);
    if cs.len() > max {
        let mut out = String::new();
        let mut i: usize = 0;
        while i < max
            invariant
                i <= max < cs@.len(),
                out@ == cs@.take(i as int),
            decreases max - i,
        {
            push_char(&mut out, cs[i]);
            i = i + 1;
            assert(out@ == cs@.take(i as int));
        }
        push_str(&mut out, suffix);
        out
    } else {
        owned(s)
    }
}

/// What `char::to_uppercase` yields for a character, collected into a string.
pub uninterp spec fn uppercase_char(c: char) -> Seq<char>;

/// Uppercases one character with `char::to_uppercase`.
#[verifier::external_body]
pub(crate) fn to_uppercase_char(c: char) -> (r: String)
    ensures
        r@ == uppercase_char(c),
{
    c.to_uppercase().collect::<String>()
}

/// What `char::is_alphanumeric` answers: the Unicode `Alphabetic` or `Numeric` property.
pub uninterp spec fn alphanumeric(c: char) -> bool;

/// Tests a character with `char::is_alphanumeric`.
#[verifier::external_body]
pub(crate) fn is_alphanumeric(c: char) -> (r: bool)
    ensures
        r == alphanumeric(c),
{
    c.is_alphanumeric()
}

/// Every character of `s` is an ASCII digit.
pub open spec fn all_digits(s: Seq<char>) -> bool {
    forall|i: int| 0 <= i < s.len() ==> '0' <= #[trigger] s[i] && s[i] <= '9'
}

/// The number that the ASCII digits `s` write in decimal.
pub open spec fn digits_value(s: Seq<char>) -> nat
    decreases s.len(),
{
    if s.len() == 0 {
        0
    } else {
        digits_value(s.drop_last()) * 10 + ((s.last() as int) - 48) as nat
    }
}

/// The integer that `s` writes as `str::parse` reads it: an optional `+` or `-` sign and at
/// least one ASCII digit, nothing else.
pub open spec fn parse_int(s: Seq<char>) -> Option<int> {
    if s.len() > 0 && (s[0] == '+' || s[0] == '-') {
        let r = s.drop_first();
        if r.len() > 0 && all_digits(r) {
            if s[0] == '-' {
                Some(-(digits_value(r) as int))
            } else {
                Some(digits_value(r) as int)
            }
        } else {
            None
        }
    } else if s.len() > 0 && all_digits(s) {
        Some(digits_value(s) as int)
    } else {
        None
    }
}

/// What `str::parse::<i64>` gives: the integer when it is in range.
pub open spec fn parse_i64_spec(s: Seq<char>) -> Option<i64> {
    match parse_int(s) {
        Some(v) => if i64::MIN <= v <= i64::MAX {
            Some(v as i64)
        } else {
            None
        },
        None => None,
    }
}

/// What `str::parse::<u64>` gives: the integer when it has no minus sign and is in range.
pub open spec fn parse_u64_spec(s: Seq<char>) -> Option<u64> {
    if s.len() > 0 && s[0] == '-' {
        None
    } else {
        match parse_int(s) {
            Some(v) => if 0 <= v <= u64::MAX {
                Some(v as u64)
            } else {
                None
            },
            None => None,
        }
    }
}

/// The value of the digits `cs[from..]` when they are all digits, at least one, and the
/// value is at most `limit`.
fn digits_upto(cs: &[char], from: usize, limit: u64) -> (r: Option<u64>)
    requires
        from <= cs@.len(),
    ensures
        match r {
            Some(v) => cs@.len() > from && all_digits(cs@.skip(from as int))
                && v == digits_value(cs@.skip(from as int)) && v <= limit,
            None => !(cs@.len() > from && all_digits(cs@.skip(from as int))
                && digits_value(cs@.skip(from as int)) <= limit),
        },
{
    let n = cs.len();
    if from >= n {
        return None;
    }
    let ghost t = cs@.skip(from as int);
    let mut acc: u64 = 0;
    let mut i: usize = from;
    while i < n
        invariant
            from <= i <= n,
            n == cs@.len(),
            t == cs@.skip(from as int),
            all_digits(cs@.subrange(from as int, i as int)),
            acc == digits_value(cs@.subrange(from as int, i as int)),
            acc <= limit,
        decreases n - i,
    {
        let c = cs[i];
        if c < '0' || c > '9' {
            assert(t[i - from] == c);
            return None;
        }
        let d = (c as u64) - 48;
        assert(cs@.subrange(from as int, i + 1).drop_last() == cs@.subrange(from as int, i as int));
        if d > limit || acc > (limit - d) / 10 {
            proof {
                lemma_digits_prefix_le(t, (i - from) as int);
                assert(t.take(i - from + 1) == cs@.subrange(from as int, i + 1));
                assert(digits_value(cs@.subrange(from as int, i + 1)) == acc * 10 + d);
                if d <= limit {
                    assert(acc * 10 + d > limit) by (nonlinear_arith)
                        requires acc > (limit - d) / 10, d <= limit;
                }
            }
            return None;
        }
        assert(acc * 10 + d <= limit) by (nonlinear_arith)
            requires acc <= (limit - d) / 10, d <= 9;
        acc = acc * 10 + d;
        i = i + 1;
    }
    assert(cs@.subrange(from as int, n as int) == t);
    Some(acc)
}

/// Parses `s` as `str::parse::<i64>` does.
pub fn parse_i64(s: &str) -> (r: Option<i64>)
    ensures
        r == parse_i64_spec(s@),
{
    let cs = chars_of(s);
    if cs.len() == 0 {
        return None;
    }
    if cs[0] == '-' {
        match digits_upto(cs.as_slice(), 1, 9223372036854775808u64) {
            Some(v) => {
                assert(cs@.skip(1) == cs@.drop_first());
                if v == 9223372036854775808u64 {
                    Some(i64::MIN)
                } else {
                    Some(-(v as i64))
                }
            },
            None => {
                assert(cs@.skip(1) == cs@.drop_first());
                None
            },
        }
    } else if cs[0] == '+' {
        let r = digits_upto(cs.as_slice(), 1, 9223372036854775807u64);
        assert(cs@.skip(1) == cs@.drop_first());
        match r {
            Some(v) => Some(v as i64),
            None => None,
        }
    } else {
        let r = digits_upto(cs.as_slice(), 0, 9223372036854775807u64);
        assert(cs@.skip(0) == cs@);
        match r {
            Some(v) => Some(v as i64),
            None => None,
        }
    }
}

/// Parses `s` as `str::parse::<u64>` does.
pub fn parse_u64(s: &str) -> (r: Option<u64>)
    ensures
        r == parse_u64_spec(s@),
{
    let cs = chars_of(s);
    if cs.len() == 0 {
        return None;
    }
    if cs[0] == '-' {
        None
    } else if cs[0] == '+' {
        let r = digits_upto(cs.as_slice(), 1, 18446744073709551615u64);
        assert(cs@.skip(1) == cs@.drop_first());
        r
    } else {
        let r = digits_upto(cs.as_slice(), 0, 18446744073709551615u64);
        assert(cs@.skip(0) == cs@);
        r
    }
}

/// The value of a prefix of digits is at most the value of the whole.
proof fn lemma_digits_prefix_le(t: Seq<char>, k: int)
    requires
        0 <= k < t.len(),
    ensures
        all_digits(t) ==> digits_value(t.take(k + 1)) <= digits_value(t),
    decreases t.len(),
{
    if all_digits(t) && k + 1 < t.len() {
        lemma_digits_prefix_le(t.drop_last(), k);
        assert(t.drop_last().take(k + 1) == t.take(k + 1));
        assert forall|i: int| 0 <= i < t.drop_last().len() implies '0' <= #[trigger] t.drop_last()[i]
            && t.drop_last()[i] <= '9' by {
            assert(t.drop_last()[i] == t[i]);
        }
    } else if k + 1 == t.len() {
        assert(t.take(k + 1) == t);
    }
}

} // verus!
