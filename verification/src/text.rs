//! Character-sequence helpers: decimal and hexadecimal formatting, decimal
//! parsing with the rules of the standard library's unsigned `from_str`,
//! whitespace trimming, padding and substring search.

use vstd::prelude::*;
use vstd::string::*;

verus! {

/// The ASCII digit for `d` (which is below 16); lower-case letters above 9.
pub open spec fn digit_char(d: int) -> char {
    if d == 0 { '0' }
    else if d == 1 { '1' }
    else if d == 2 { '2' }
    else if d == 3 { '3' }
    else if d == 4 { '4' }
    else if d == 5 { '5' }
    else if d == 6 { '6' }
    else if d == 7 { '7' }
    else if d == 8 { '8' }
    else if d == 9 { '9' }
    else if d == 10 { 'a' }
    else if d == 11 { 'b' }
    else if d == 12 { 'c' }
    else if d == 13 { 'd' }
    else if d == 14 { 'e' }
    else { 'f' }
}

/// The shortest decimal representation of `n`, as `format!("{}", n)` writes it.
pub open spec fn decimal(n: nat) -> Seq<char>
    decreases n,
{
    if n < 10 {
        seq![digit_char(n as int)]
    } else {
        decimal(n / 10).push(digit_char((n % 10) as int))
    }
}

/// One digit as a one-character string.
fn digit_string(d: u64) -> (s: String)
    requires
        d < 16,
    ensures
        s@ == seq![digit_char(d as int)],
{
    let lit: &str = if d == 0 { "0" }
        else if d == 1 { "1" }
        else if d == 2 { "2" }
        else if d == 3 { "3" }
        else if d == 4 { "4" }
        else if d == 5 { "5" }
        else if d == 6 { "6" }
        else if d == 7 { "7" }
        else if d == 8 { "8" }
        else if d == 9 { "9" }
        else if d == 10 { "a" }
        else if d == 11 { "b" }
        else if d == 12 { "c" }
        else if d == 13 { "d" }
        else if d == 14 { "e" }
        else { "f" };
    proof {
        reveal_strlit("0");
        reveal_strlit("1");
        reveal_strlit("2");
        reveal_strlit("3");
        reveal_strlit("4");
        reveal_strlit("5");
        reveal_strlit("6");
        reveal_strlit("7");
        reveal_strlit("8");
        reveal_strlit("9");
        reveal_strlit("a");
        reveal_strlit("b");
        reveal_strlit("c");
        reveal_strlit("d");
        reveal_strlit("e");
        reveal_strlit("f");
    }
    String::from_str(lit)
}

/// Formats `n` in decimal.
pub fn format_decimal(n: u64) -> (s: String)
    ensures
        s@ == decimal(n as nat),
    decreases n,
{
    if n < 10 {
        digit_string(n)
    } else {
        let mut s = format_decimal(n / 10);
        let d = digit_string(n % 10);
        s.append(d.as_str());
        s
    }
}


/// Whether `c` is an ASCII decimal digit.
pub open spec fn is_digit(c: char) -> bool {
    '0' <= c && c <= '9'
}

/// The value of an ASCII decimal digit.
pub open spec fn digit_value(c: char) -> nat {
    (c as int - '0' as int) as nat
}

/// Whether every character of `s` is a decimal digit.
pub open spec fn all_digits(s: Seq<char>) -> bool {
    forall|i: int| 0 <= i < s.len() ==> is_digit(#[trigger] s[i])
}

/// The number that the decimal digits `s` denote (0 for no digits).
pub open spec fn digits_value(s: Seq<char>) -> nat
    decreases s.len(),
{
    if s.len() == 0 {
        0
    } else {
        digits_value(s.drop_last()) * 10 + digit_value(s.last())
    }
}

/// What follows an optional leading `+`.
pub open spec fn unsigned_body(s: Seq<char>) -> Seq<char> {
    if s.len() > 0 && s[0] == '+' {
        s.drop_first()
    } else {
        s
    }
}

/// An unsigned decimal number as the standard library's `from_str` of an
/// unsigned integer type whose largest value is `max` reads it: an optional
/// `+`, then one digit or more and nothing else, of value at most `max`.
pub open spec fn parse_unsigned_spec(s: Seq<char>, max: nat) -> Option<nat> {
    let body = unsigned_body(s);
    if body.len() > 0 && all_digits(body) && digits_value(body) <= max {
        Some(digits_value(body))
    } else {
        None
    }
}

proof fn lemma_digits_value_prefix(s: Seq<char>, k: int)
    requires
        0 <= k <= s.len(),
        all_digits(s),
    ensures
        digits_value(s.take(k)) <= digits_value(s),
    decreases s.len(),
{
    if k < s.len() {
        assert(s.drop_last().take(k) =~= s.take(k));
        lemma_digits_value_prefix(s.drop_last(), k);
        assert(digits_value(s.drop_last()) <= digits_value(s.drop_last()) * 10) by (nonlinear_arith);
    } else {
        assert(s.take(k) =~= s);
    }
}

/// The decimal representation of `n` is a non-empty run of digits that
/// denotes `n`.
pub proof fn lemma_decimal_digits(n: nat)
    ensures
        decimal(n).len() > 0,
        all_digits(decimal(n)),
        digits_value(decimal(n)) == n,
    decreases n,
{
    lemma_digit_char_value((n % 10) as int);
    if n >= 10 {
        lemma_decimal_digits(n / 10);
        let s = decimal(n / 10);
        let t = decimal(n);
        assert(t.drop_last() =~= s);
        assert(forall|i: int| 0 <= i < s.len() ==> t[i] == s[i]);
        assert(t.last() == digit_char((n % 10) as int));
        assert(digits_value(t) == digits_value(s) * 10 + digit_value(t.last()));
        assert((n / 10) * 10 + n % 10 == n);
    } else {
        let t = decimal(n);
        assert(t.drop_last() =~= Seq::<char>::empty());
        assert(n % 10 == n);
        assert(t.last() == digit_char((n % 10) as int));
        assert(digits_value(t.drop_last()) == 0);
        assert(digits_value(t) == digits_value(t.drop_last()) * 10 + digit_value(t.last()));
    }
}

proof fn lemma_digit_char_value(d: int)
    requires
        0 <= d < 10,
    ensures
        is_digit(digit_char(d)),
        digit_value(digit_char(d)) == d,
{
}

/// Reading back a formatted number gives the number: the decimal text of
/// any `n` up to `max` parses to `n`.
pub proof fn lemma_parse_decimal(n: nat, max: nat)
    requires
        n <= max,
    ensures
        parse_unsigned_spec(decimal(n), max) == Some(n),
{
    lemma_decimal_digits(n);
    assert(is_digit(decimal(n)[0]));
    assert(unsigned_body(decimal(n)) == decimal(n));
}

/// Parses an unsigned decimal number no greater than `max`.
pub fn parse_unsigned(s: &str, max: u64) -> (r: Option<u64>)
    ensures
        r matches Some(v) ==> parse_unsigned_spec(s@, max as nat) == Some(v as nat),
        r is None ==> parse_unsigned_spec(s@, max as nat) is None,
{
    let n = s.unicode_len();
    if n == 0 {
        return None;
    }
    let mut i: usize = 0;
    if s.get_char(0) == '+' {
        i = 1;
    }
    let start = i;
    let ghost body = unsigned_body(s@);
    assert(body =~= s@.subrange(start as int, n as int));
    if start == n {
        return None;
    }
    let mut value: u64 = 0;
    while i < n
        invariant
            start <= i <= n,
            n == s@.len(),
            body == unsigned_body(s@),
            body =~= s@.subrange(start as int, n as int),
            body.len() > 0,
            all_digits(body.take(i - start)),
            value as nat == digits_value(body.take(i - start)),
            value <= max,
        decreases n - i,
    {
        let c = s.get_char(i);
        let ghost k: int = i - start;
        assert(body[k] == c);
        if !('0' <= c && c <= '9') {
            assert(!is_digit(body[k]));
            assert(!all_digits(body));
            return None;
        }
        let d: u64 = (c as u32 - '0' as u32) as u64;
        assert(body.take(k + 1).drop_last() =~= body.take(k));
        assert(body.take(k + 1).last() == c);
        if d > max || value > (max - d) / 10 {
            proof {
                if all_digits(body) {
                    lemma_digits_value_prefix(body, k + 1);
                    assert(digits_value(body.take(k + 1)) == value * 10 + d);
                    if d <= max {
                        assert(value * 10 + d > max) by (nonlinear_arith)
                            requires value > (max - d) / 10, d <= max;
                    }
                }
            }
            return None;
        }
        assert(value * 10 + d <= max) by (nonlinear_arith)
            requires value <= (max - d) / 10, d <= max;
        value = value * 10 + d;
        i = i + 1;
        assert(all_digits(body.take(i - start)));
    }
    assert(body.take(n - start) =~= body);
    Some(value)
}


/// Whether `c` has the Unicode `White_Space` property, as `char::is_whitespace` tells.
pub open spec fn is_whitespace_spec(c: char) -> bool {
    ('\u{9}' <= c && c <= '\u{d}') || c == ' ' || c == '\u{85}' || c == '\u{a0}'
        || c == '\u{1680}' || ('\u{2000}' <= c && c <= '\u{200a}') || c == '\u{2028}'
        || c == '\u{2029}' || c == '\u{202f}' || c == '\u{205f}' || c == '\u{3000}'
}

/// Tells whether `c` is white space.
pub fn is_whitespace(c: char) -> (b: bool)
    ensures
        b == is_whitespace_spec(c),
{
    ('\u{9}' <= c && c <= '\u{d}') || c == ' ' || c == '\u{85}' || c == '\u{a0}'
        || c == '\u{1680}' || ('\u{2000}' <= c && c <= '\u{200a}') || c == '\u{2028}'
        || c == '\u{2029}' || c == '\u{202f}' || c == '\u{205f}' || c == '\u{3000}'
}

/// `s` without its leading white space.
pub open spec fn trim_start_spec(s: Seq<char>) -> Seq<char>
    decreases s.len(),
{
    if s.len() > 0 && is_whitespace_spec(s[0]) {
        trim_start_spec(s.drop_first())
    } else {
        s
    }
}

/// `s` without its trailing white space.
pub open spec fn trim_end_spec(s: Seq<char>) -> Seq<char>
    decreases s.len(),
{
    if s.len() > 0 && is_whitespace_spec(s.last()) {
        trim_end_spec(s.drop_last())
    } else {
        s
    }
}

/// `s` without leading and trailing white space, as `str::trim` gives it.
pub open spec fn trim_spec(s: Seq<char>) -> Seq<char> {
    trim_end_spec(trim_start_spec(s))
}

/// Removes leading and trailing white space.
pub fn trim(s: &str) -> (r: String)
    ensures
        r@ == trim_spec(s@),
{
    let n = s.unicode_len();
    let mut i: usize = 0;
    assert(s@.subrange(0, n as int) =~= s@);
    while i < n && is_whitespace(s.get_char(i))
        invariant
            i <= n,
            n == s@.len(),
            trim_start_spec(s@) == trim_start_spec(s@.subrange(i as int, n as int)),
        decreases n - i,
    {
        assert(s@.subrange(i as int, n as int).drop_first() =~= s@.subrange(i + 1, n as int));
        i = i + 1;
    }
    assert(trim_start_spec(s@) == s@.subrange(i as int, n as int));
    let mut j: usize = n;
    while j > i && is_whitespace(s.get_char(j - 1))
        invariant
            i <= j <= n,
            n == s@.len(),
            trim_spec(s@) == trim_end_spec(s@.subrange(i as int, j as int)),
        decreases j,
    {
        assert(s@.subrange(i as int, j as int).drop_last() =~= s@.subrange(i as int, j - 1));
        j = j - 1;
    }
    String::from_str(s.substring_char(i, j))
}

/// `w` spaces.
pub open spec fn spaces(w: nat) -> Seq<char> {
    Seq::new(w, |k: int| ' ')
}

/// `s` followed by spaces up to width `w`, as `format!("{:<w$}", s)` writes it.
pub open spec fn pad_right_spec(s: Seq<char>, w: nat) -> Seq<char> {
    if s.len() >= w { s } else { s + spaces((w - s.len()) as nat) }
}

/// `s` preceded by spaces up to width `w`, as `format!("{:>w$}", s)` writes it.
pub open spec fn pad_left_spec(s: Seq<char>, w: nat) -> Seq<char> {
    if s.len() >= w { s } else { spaces((w - s.len()) as nat) + s }
}

/// Builds a string of `k` spaces.
fn space_string(k: usize) -> (r: String)
    ensures
        r@ == spaces(k as nat),
{
    let mut r = String::new();
    let mut i: usize = 0;
    while i < k
        invariant
            i <= k,
            r@ == spaces(i as nat),
        decreases k - i,
    {
        proof { reveal_strlit(" "); }
        r.append(" ");
        i = i + 1;
        assert(r@ =~= spaces(i as nat));
    }
    r
}

/// Pads `s` on the right with spaces to width `w`.
pub fn pad_right(s: &str, w: usize) -> (r: String)
    ensures
        r@ == pad_right_spec(s@, w as nat),
{
    let n = s.unicode_len();
    let mut r = String::from_str(s);
    if n < w {
        let sp = space_string(w - n);
        r.append(sp.as_str());
    }
    r
}

/// Pads `s` on the left with spaces to width `w`.
pub fn pad_left(s: &str, w: usize) -> (r: String)
    ensures
        r@ == pad_left_spec(s@, w as nat),
{
    let n = s.unicode_len();
    if n < w {
        let mut r = space_string(w - n);
        r.append(s);
        r
    } else {
        String::from_str(s)
    }
}

/// Whether `needle` occurs in `hay` starting at position `i`.
pub open spec fn occurs_at(hay: Seq<char>, needle: Seq<char>, i: int) -> bool {
    0 <= i && i + needle.len() <= hay.len() && hay.subrange(i, i + needle.len()) == needle
}

/// Whether `needle` occurs in `hay`, as `str::contains` tells.
pub open spec fn contains_spec(hay: Seq<char>, needle: Seq<char>) -> bool {
    exists|i: int| occurs_at(hay, needle, i)
}

/// The characters of `s`.
fn chars_of(s: &str) -> (v: Vec<char>)
    ensures
        v@ == s@,
{
    let n = s.unicode_len();
    let mut v: Vec<char> = Vec::new();
    let mut i: usize = 0;
    while i < n
        invariant
            i <= n,
            n == s@.len(),
            v@ == s@.take(i as int),
        decreases n - i,
    {
        v.push(s.get_char(i));
        i = i + 1;
        assert(v@ =~= s@.take(i as int));
    }
    assert(s@.take(n as int) =~= s@);
    v
}

/// Tells whether `needle` occurs in `hay`.
pub fn contains(hay: &str, needle: &str) -> (b: bool)
    ensures
        b == contains_spec(hay@, needle@),
{
    let h = chars_of(hay);
    let nd = chars_of(needle);
    let hl = h.len();
    let nl = nd.len();
    if nl > hl {
        assert forall|i: int| !occurs_at(hay@, needle@, i) by {}
        return false;
    }
    let mut i: usize = 0;
    while i <= hl - nl
        invariant
            h@ == hay@,
            nd@ == needle@,
            hl == h@.len(),
            nl == nd@.len(),
            nl <= hl,
            i <= hl - nl + 1,
            forall|k: int| 0 <= k < i ==> !occurs_at(hay@, needle@, k),
        decreases hl - nl + 1 - i,
    {
        let mut j: usize = 0;
        let mut same = true;
        while j < nl
            invariant
                h@ == hay@,
                nd@ == needle@,
                hl == h@.len(),
                nl == nd@.len(),
                i + nl <= hl,
                j <= nl,
                same == (forall|t: int| 0 <= t < j ==> h@[i + t] == nd@[t]),
            decreases nl - j,
        {
            if h[i + j] != nd[j] {
                same = false;
            }
            j = j + 1;
        }
        if same {
            assert(hay@.subrange(i as int, i + nl) =~= needle@);
            assert(occurs_at(hay@, needle@, i as int));
            return true;
        }
        assert(!occurs_at(hay@, needle@, i as int)) by {
            let t = choose|t: int| 0 <= t < nl && h@[i + t] != nd@[t];
            if hay@.subrange(i as int, i + nl) == needle@ {
                assert(hay@.subrange(i as int, i + nl)[t] == h@[i + t]);
            }
        }
        i = i + 1;
    }
    assert forall|k: int| !occurs_at(hay@, needle@, k) by {
        if 0 <= k && k + nl <= hl {
            assert(k < i);
        }
    }
    false
}

/// The `k` lowest hexadecimal digits of `v`, most significant first.
pub open spec fn hex_digits(v: nat, k: nat) -> Seq<char>
    decreases k,
{
    if k == 0 {
        seq![]
    } else {
        hex_digits(v / 16, (k - 1) as nat).push(digit_char((v % 16) as int))
    }
}

/// Formats `v` as eight lower-case hexadecimal digits, as `format!("{v:08x}")` does.
pub fn hex8(v: u32) -> (r: String)
    ensures
        r@ == hex_digits(v as nat, 8),
{
    hex_digits_exec(v as u64, 8)
}

fn hex_digits_exec(v: u64, k: u64) -> (r: String)
    ensures
        r@ == hex_digits(v as nat, k as nat),
    decreases k,
{
    if k == 0 {
        String::new()
    } else {
        let mut r = hex_digits_exec(v / 16, k - 1);
        let d = digit_string(v % 16);
        r.append(d.as_str());
        r
    }
}

/// `base` with `component` appended as a path component, as `PathBuf::push`
/// does on Unix for a relative `component`.
pub open spec fn path_join_spec(base: Seq<char>, component: Seq<char>) -> Seq<char> {
    if base.len() == 0 || base.last() == '/' {
        base + component
    } else {
        base + seq!['/'] + component
    }
}

/// Appends a relative path component to `base`.
pub fn path_join(base: &str, component: &str) -> (r: String)
    requires
        component@.len() > 0,
        component@[0] != '/',
    ensures
        r@ == path_join_spec(base@, component@),
{
    let n = base.unicode_len();
    let mut r = String::from_str(base);
    if n > 0 && base.get_char(n - 1) != '/' {
        proof { reveal_strlit("/"); }
        r.append("/");
    }
    r.append(component);
    r
}


/// Where the last segment of a path starts: just after its last `/`, or at 0.
pub open spec fn segment_start(p: Seq<char>) -> int
    decreases p.len(),
{
    if p.len() == 0 {
        0
    } else if p.last() == '/' {
        p.len() as int
    } else {
        segment_start(p.drop_last())
    }
}

/// The text after the last `/` of a path.
pub open spec fn last_segment(p: Seq<char>) -> Seq<char> {
    p.subrange(segment_start(p), p.len() as int)
}

/// The final component of a path, as `Path::file_name` gives it on Unix:
/// trailing `/` and `.` components are passed over; there is none when
/// nothing is left but the root, or when the path ends in `..`.
pub open spec fn file_name_spec(p: Seq<char>) -> Option<Seq<char>>
    decreases p.len(),
{
    if p.len() == 0 {
        None
    } else if p.last() == '/' || last_segment(p) == seq!['.'] {
        file_name_spec(p.drop_last())
    } else if last_segment(p) == seq!['.', '.'] {
        None
    } else {
        Some(last_segment(p))
    }
}

/// The final component of `path`.
pub fn path_file_name(path: &str) -> (r: Option<String>)
    ensures
        opt_text(r) == file_name_spec(path@),
{
    let mut end: usize = path.unicode_len();
    assert(path@.take(end as int) =~= path@);
    while end > 0
        invariant
            end <= path@.len(),
            file_name_spec(path@) == file_name_spec(path@.take(end as int)),
        decreases end,
    {
        let ghost p = path@.take(end as int);
        assert(p.drop_last() =~= path@.take(end - 1));
        if path.get_char(end - 1) == '/' {
            end = end - 1;
        } else {
            let mut k: usize = end - 1;
            while k > 0 && path.get_char(k - 1) != '/'
                invariant
                    k < end <= path@.len(),
                    p == path@.take(end as int),
                    segment_start(p) == segment_start(path@.take(k as int)),
                decreases k,
            {
                assert(path@.take(k as int).drop_last() =~= path@.take(k - 1));
                k = k - 1;
            }
            assert(segment_start(p) == k);
            let ghost seg = last_segment(p);
            assert(seg =~= path@.subrange(k as int, end as int));
            if end - k == 1 && path.get_char(k) == '.' {
                assert(seg =~= seq!['.']);
                end = end - 1;
            } else if end - k == 2 && path.get_char(k) == '.' && path.get_char(k + 1) == '.' {
                assert(seg =~= seq!['.', '.']);
                return None;
            } else {
                assert(seg != seq!['.'] && seg != seq!['.', '.']) by {
                    if seg.len() == 1 {
                        assert(seg[0] != seq!['.'][0]);
                    }
                    if seg.len() == 2 {
                        assert(seg[0] != seq!['.', '.'][0] || seg[1] != seq!['.', '.'][1]);
                    }
                }
                return Some(String::from_str(path.substring_char(k, end)));
            }
        }
    }
    None
}

/// The text of an optional string.
pub open spec fn opt_text(o: Option<String>) -> Option<Seq<char>> {
    match o {
        Some(s) => Some(s@),
        None => None,
    }
}

/// Whether `s` spells the lower-case ASCII word `w` up to ASCII case: the same
/// test as comparing `s.to_lowercase()` with `w` when `w` is made of ASCII
/// letters other than `k`.
pub open spec fn matches_word_spec(s: Seq<char>, w: Seq<char>) -> bool {
    s.len() == w.len() && forall|i: int|
        0 <= i < s.len() ==> (#[trigger] s[i] == w[i] || s[i] as u32 + 32 == w[i] as u32)
}

/// Compares `s` with the lower-case word `w` up to ASCII case.
pub fn matches_word(s: &str, w: &str) -> (b: bool)
    ensures
        b == matches_word_spec(s@, w@),
{
    let a = chars_of(s);
    let b = chars_of(w);
    if a.len() != b.len() {
        return false;
    }
    let mut i: usize = 0;
    while i < a.len()
        invariant
            a@ == s@,
            b@ == w@,
            a.len() == b.len(),
            i <= a.len(),
            forall|k: int| 0 <= k < i ==> (#[trigger] s@[k] == w@[k] || s@[k] as u32 + 32 == w@[k] as u32),
        decreases a.len() - i,
    {
        let x = a[i];
        let y = b[i];
        if !(x == y || x as u32 as u64 + 32 == y as u32 as u64) {
            assert(s@[i as int] == x && w@[i as int] == y);
            return false;
        }
        i = i + 1;
    }
    true
}

} // verus!
