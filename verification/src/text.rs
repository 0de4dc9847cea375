//! Character-level text operations shared by the configuration, status-line
//! and shell-quoting code, each specified over the character sequence that a
//! string holds.
use vstd::prelude::*;

verus! {

// ---------------------------------------------------------------------------
// Specifications
// ---------------------------------------------------------------------------

/// What `str::to_lowercase` gives for a string (Unicode lowercase mapping).
pub uninterp spec fn lowercase_of(s: Seq<char>) -> Seq<char>;

/// A character of the Unicode `White_Space` property.
pub open spec fn is_white_space(c: char) -> bool {
    ||| '\u{9}' <= c <= '\u{d}'
    ||| c == ' '
    ||| c == '\u{85}'
    ||| c == '\u{a0}'
    ||| c == '\u{1680}'
    ||| '\u{2000}' <= c <= '\u{200a}'
    ||| c == '\u{2028}'
    ||| c == '\u{2029}'
    ||| c == '\u{202f}'
    ||| c == '\u{205f}'
    ||| c == '\u{3000}'
}

/// `s` without its leading white space.
pub open spec fn trim_start(s: Seq<char>) -> Seq<char>
    decreases s.len(),
{
    if s.len() > 0 && is_white_space(s[0]) {
        trim_start(s.drop_first())
    } else {
        s
    }
}

/// `s` without its trailing white space.
pub open spec fn trim_end(s: Seq<char>) -> Seq<char>
    decreases s.len(),
{
    if s.len() > 0 && is_white_space(s.last()) {
        trim_end(s.drop_last())
    } else {
        s
    }
}

/// `s` without white space at either end (what `str::trim` gives).
pub open spec fn trimmed(s: Seq<char>) -> Seq<char> {
    trim_end(trim_start(s))
}

proof fn lemma_trim_start_clean(s: Seq<char>)
    ensures
        trim_start(s).len() > 0 ==> !is_white_space(trim_start(s)[0]),
    decreases s.len(),
{
    if s.len() > 0 && is_white_space(s[0]) {
        lemma_trim_start_clean(s.drop_first());
    }
}

proof fn lemma_trim_end_prefix(s: Seq<char>)
    ensures
        trim_end(s).len() <= s.len(),
        trim_end(s) == s.subrange(0, trim_end(s).len() as int),
        trim_end(s).len() > 0 ==> !is_white_space(trim_end(s).last()),
    decreases s.len(),
{
    if s.len() > 0 && is_white_space(s.last()) {
        lemma_trim_end_prefix(s.drop_last());
        assert(s.drop_last().subrange(0, trim_end(s).len() as int) =~= s.subrange(0, trim_end(s).len() as int));
    } else {
        assert(s.subrange(0, s.len() as int) =~= s);
    }
}

/// A trimmed text starts and ends with a character that is not white space.
pub proof fn lemma_trimmed_has_no_outer_space(s: Seq<char>)
    ensures
        trimmed(s).len() > 0 ==> !is_white_space(trimmed(s)[0]) && !is_white_space(trimmed(s).last()),
{
    lemma_trim_start_clean(s);
    lemma_trim_end_prefix(trim_start(s));
    if trimmed(s).len() > 0 {
        assert(trimmed(s)[0] == trim_start(s)[0]);
    }
}

/// Every occurrence of `pat` in `s`, taken from the left and without overlap,
/// replaced by `rep` (the rule of `str::replace` for a non-empty pattern).
pub open spec fn replace_all(s: Seq<char>, pat: Seq<char>, rep: Seq<char>) -> Seq<char>
    recommends
        pat.len() > 0,
    decreases s.len(),
{
    if pat.len() == 0 || s.len() < pat.len() {
        s
    } else if s.subrange(0, pat.len() as int) == pat {
        rep + replace_all(s.subrange(pat.len() as int, s.len() as int), pat, rep)
    } else {
        seq![s[0]] + replace_all(s.subrange(1, s.len() as int), pat, rep)
    }
}

/// `sub` occurs in `s` at position `i`.
pub open spec fn occurs_at(s: Seq<char>, sub: Seq<char>, i: int) -> bool {
    0 <= i && i + sub.len() <= s.len() && s.subrange(i, i + sub.len()) == sub
}

/// `sub` occurs somewhere in `s`.
pub open spec fn has_substring(s: Seq<char>, sub: Seq<char>) -> bool {
    exists|i: int| occurs_at(s, sub, i)
}

/// The value of an ASCII decimal digit.
pub open spec fn digit_value(c: char) -> nat {
    (c as u32 - '0' as u32) as nat
}

pub open spec fn is_digit(c: char) -> bool {
    '0' <= c && c <= '9'
}

/// The digit character for a value below ten.
pub open spec fn digit_char(d: nat) -> char {
    (d + '0' as u32) as char
}

/// The value of a string of decimal digits, most significant first.
pub open spec fn digits_value(s: Seq<char>) -> nat
    decreases s.len(),
{
    if s.len() == 0 {
        0
    } else {
        digits_value(s.drop_last()) * 10 + digit_value(s.last())
    }
}

/// The decimal text of a natural number, without leading zeros.
pub open spec fn decimal(n: nat) -> Seq<char>
    decreases n,
{
    if n < 10 {
        seq![digit_char(n)]
    } else {
        decimal(n / 10) + seq![digit_char(n % 10)]
    }
}

/// The text that the parser of an unsigned integer reads its digits from:
/// an optional leading `+` is dropped when something follows it.
pub open spec fn unsigned_digits(s: Seq<char>) -> Seq<char> {
    if s.len() > 1 && s[0] == '+' {
        s.subrange(1, s.len() as int)
    } else {
        s
    }
}

/// The value that parsing an unsigned integer out of `s` yields, before the
/// range of the target type is checked: an optional `+`, then one or more
/// decimal digits and nothing else.
pub open spec fn parse_unsigned_value(s: Seq<char>) -> Option<nat> {
    let d = unsigned_digits(s);
    if d.len() > 0 && forall|i: int| 0 <= i < d.len() ==> is_digit(#[trigger] d[i]) {
        Some(digits_value(d))
    } else {
        None
    }
}

/// Parsing an unsigned integer of a type whose largest value is `max`.
pub open spec fn parse_unsigned_within(s: Seq<char>, max: nat) -> Option<nat> {
    match parse_unsigned_value(s) {
        Some(v) => if v <= max { Some(v) } else { None },
        None => None,
    }
}

/// Parsing a boolean: exactly `true` or `false`.
pub open spec fn parse_bool_spec(s: Seq<char>) -> Option<bool> {
    if s == seq!['t', 'r', 'u', 'e'] {
        Some(true)
    } else if s == seq!['f', 'a', 'l', 's', 'e'] {
        Some(false)
    } else {
        None
    }
}

/// Splitting the rest of a text at `sep`, with `cur` the piece read so far
/// (the rule of `str::split` with a single character).
pub open spec fn split_from(s: Seq<char>, sep: char, cur: Seq<char>) -> Seq<Seq<char>>
    decreases s.len(),
{
    if s.len() == 0 {
        seq![cur]
    } else if s[0] == sep {
        seq![cur] + split_from(s.subrange(1, s.len() as int), sep, Seq::empty())
    } else {
        split_from(s.subrange(1, s.len() as int), sep, cur.push(s[0]))
    }
}

/// The pieces of `s` between the occurrences of `sep`.
pub open spec fn split_on(s: Seq<char>, sep: char) -> Seq<Seq<char>> {
    split_from(s, sep, Seq::empty())
}

// ---------------------------------------------------------------------------
// Lemmas
// ---------------------------------------------------------------------------

proof fn lemma_replace_step(s: Seq<char>, i: int, pat: Seq<char>, rep: Seq<char>)
    requires
        pat.len() > 0,
        0 <= i,
        i + pat.len() <= s.len(),
    ensures
        s.subrange(i, i + pat.len()) == pat ==> replace_all(s.subrange(i, s.len() as int), pat, rep)
            == rep + replace_all(s.subrange(i + pat.len(), s.len() as int), pat, rep),
        s.subrange(i, i + pat.len()) != pat ==> replace_all(s.subrange(i, s.len() as int), pat, rep)
            == seq![s[i]] + replace_all(s.subrange(i + 1, s.len() as int), pat, rep),
{
    let t = s.subrange(i, s.len() as int);
    assert(t.subrange(0, pat.len() as int) == s.subrange(i, i + pat.len()));
    assert(t.subrange(pat.len() as int, t.len() as int) == s.subrange(i + pat.len(), s.len() as int));
    assert(t.subrange(1, t.len() as int) == s.subrange(i + 1, s.len() as int));
}

proof fn lemma_digits_value_push(s: Seq<char>, c: char)
    ensures
        digits_value(s.push(c)) == digits_value(s) * 10 + digit_value(c),
{
    assert(s.push(c).drop_last() == s);
}

proof fn lemma_split_step(s: Seq<char>, i: int, sep: char, cur: Seq<char>)
    requires
        0 <= i < s.len(),
    ensures
        s[i] == sep ==> split_from(s.subrange(i, s.len() as int), sep, cur) == seq![cur]
            + split_from(s.subrange(i + 1, s.len() as int), sep, Seq::empty()),
        s[i] != sep ==> split_from(s.subrange(i, s.len() as int), sep, cur) == split_from(
            s.subrange(i + 1, s.len() as int),
            sep,
            cur.push(s[i]),
        ),
{
    let t = s.subrange(i, s.len() as int);
    assert(t.subrange(1, t.len() as int) == s.subrange(i + 1, s.len() as int));
}

// ---------------------------------------------------------------------------
// Conversions between strings and characters
// ---------------------------------------------------------------------------

/// The characters of `s`, in order.
pub fn chars_of(s: &str) -> (r: Vec<char>)
    ensures
        r@ == s@,
{
    let mut r: Vec<char> = Vec::new();
    for c in it: s.chars()
        invariant
            r@ == it.seq().take(it.index() as int),
            it.seq() == s@,
    {
        r.push(c);
    }
    r
}

/// A string made of the given characters (`String: FromIterator<&char>`).
#[verifier::external_body]
pub(crate) fn string_of(chars: &[char]) -> (r: String)
    ensures
        r@ == chars@,
{
    chars.iter().collect()
}

/// Every character of `s` is a lowercase ASCII letter, a digit, `_` or
/// `-`: characters that have no other lowercase form.
pub open spec fn is_plain_lower(s: Seq<char>) -> bool {
    forall|i: int|
        0 <= i < s.len() ==> ('a' <= #[trigger] s[i] <= 'z' || '0' <= s[i] <= '9' || s[i] == '_' || s[i] == '-')
}

/// The text is made of ASCII characters only.
pub open spec fn is_ascii_text(s: Seq<char>) -> bool {
    forall|i: int| 0 <= i < s.len() ==> (#[trigger] s[i] as u32) < 128
}

/// A character with `A` to `Z` mapped to `a` to `z`.
pub open spec fn ascii_lower_char(c: char) -> char {
    if 'A' <= c <= 'Z' {
        ((c as u32) + 32) as char
    } else {
        c
    }
}

/// A text with each of `A` to `Z` mapped to `a` to `z`.
pub open spec fn ascii_lower(s: Seq<char>) -> Seq<char> {
    s.map_values(|c: char| ascii_lower_char(c))
}

/// `str::to_lowercase`: the Unicode lowercase equivalent of the text. In an
/// ASCII text each of `A` to `Z` becomes `a` to `z` and every other
/// character stays; a text made only of characters without another
/// lowercase form (lowercase ASCII letters, digits, `_` and `-`) is its own
/// lowercase equivalent. What the mapping gives for other characters is left
/// to the name `lowercase_of`.
#[verifier::external_body]
pub(crate) fn lowercase(s: &str) -> (r: String)
    ensures
        r@ == lowercase_of(s@),
        is_ascii_text(s@) ==> r@ == ascii_lower(s@),
        is_plain_lower(s@) ==> r@ == s@,
{
    s.to_lowercase()
}

/// The text without white space at either end.
pub(crate) fn trim(s: &str) -> (r: String)
    ensures
        r@ == trimmed(s@),
{
    let c = chars_of(s);
    let n = c.len();
    let mut i: usize = 0;
    assert(c@.skip(0) =~= c@);
    while i < n && is_space_char(c[i])
        invariant
            n == c.len(),
            c@ == s@,
            i <= n,
            trim_start(c@) == trim_start(c@.skip(i as int)),
        decreases n - i,
    {
        assert(c@.skip(i as int).drop_first() =~= c@.skip(i + 1));
        i = i + 1;
    }
    let ghost start = c@.skip(i as int);
    assert(trim_start(start) == start);
    let mut j: usize = n;
    assert(c@.subrange(i as int, n as int) =~= start);
    while j > i && is_space_char(c[j - 1])
        invariant
            n == c.len(),
            i <= j <= n,
            trim_end(start) == trim_end(c@.subrange(i as int, j as int)),
        decreases j,
    {
        assert(c@.subrange(i as int, j as int).drop_last() =~= c@.subrange(i as int, j - 1));
        j = j - 1;
    }
    let mut out: Vec<char> = Vec::new();
    let mut k: usize = i;
    while k < j
        invariant
            i <= k <= j <= n,
            n == c.len(),
            out@ == c@.subrange(i as int, k as int),
        decreases j - k,
    {
        out.push(c[k]);
        k = k + 1;
        assert(out@ =~= c@.subrange(i as int, k as int));
    }
    string_of(out.as_slice())
}

/// Whether a character is white space.
fn is_space_char(c: char) -> (r: bool)
    ensures
        r == is_white_space(c),
{
    ('\u{9}' <= c && c <= '\u{d}') || c == ' ' || c == '\u{85}' || c == '\u{a0}' || c == '\u{1680}' || (
    '\u{2000}' <= c && c <= '\u{200a}') || c == '\u{2028}' || c == '\u{2029}' || c == '\u{202f}' || c
        == '\u{205f}' || c == '\u{3000}'
}

/// Whether two strings hold the same characters.
pub fn str_eq(a: &str, b: &str) -> (r: bool)
    ensures
        r == (a@ == b@),
{
    String::from_str(a) == String::from_str(b)
}

/// `a` followed by `b`, as a new string.
pub fn joined(a: &str, b: &str) -> (r: String)
    ensures
        r@ == a@ + b@,
{
    let mut r = String::from_str(a);
    r.append(b);
    r
}

// ---------------------------------------------------------------------------
// Searching and replacing
// ---------------------------------------------------------------------------

/// Whether `sub` occurs at position `i` of `s`.
fn occurs_at_exec(s: &Vec<char>, sub: &Vec<char>, i: usize) -> (r: bool)
    requires
        i + sub.len() <= s.len(),
    ensures
        r == occurs_at(s@, sub@, i as int),
{
    let mut j: usize = 0;
    while j < sub.len()
        invariant
            i + sub.len() <= s.len(),
            j <= sub.len(),
            forall|k: int| 0 <= k < j ==> s@[i + k] == sub@[k],
        decreases sub.len() - j,
    {
        if s[i + j] != sub[j] {
            assert(s@.subrange(i as int, i + sub.len())[j as int] != sub@[j as int]);
            return false;
        }
        j = j + 1;
    }
    assert(s@.subrange(i as int, i + sub@.len()) =~= sub@);
    true
}

/// Whether `sub` occurs in `s`.
pub fn contains(s: &str, sub: &str) -> (r: bool)
    ensures
        r == has_substring(s@, sub@),
{
    let sc = chars_of(s);
    let pc = chars_of(sub);
    if pc.len() > sc.len() {
        return false;
    }
    let limit = sc.len() - pc.len();
    let mut i: usize = 0;
    loop
        invariant
            pc.len() <= sc.len(),
            limit == sc.len() - pc.len(),
            sc@ == s@,
            pc@ == sub@,
            i <= limit,
            forall|k: int| 0 <= k < i ==> !occurs_at(s@, sub@, k),
        ensures
            forall|k: int| 0 <= k <= limit ==> !occurs_at(s@, sub@, k),
        decreases limit - i,
    {
        if occurs_at_exec(&sc, &pc, i) {
            return true;
        }
        if i == limit {
            break;
        }
        i = i + 1;
    }
    assert forall|k: int| !occurs_at(s@, sub@, k) by {
        if 0 <= k && k + sub@.len() <= s@.len() {
            assert(k <= limit);
        }
    }
    false
}

/// Every occurrence of `pat` in `s` replaced by `rep` (`str::replace`).
pub fn replace_all_str(s: &str, pat: &str, rep: &str) -> (r: String)
    requires
        pat@.len() > 0,
    ensures
        r@ == replace_all(s@, pat@, rep@),
{
    let sc = chars_of(s);
    let pc = chars_of(pat);
    let rc = chars_of(rep);
    let mut out: Vec<char> = Vec::new();
    let mut i: usize = 0;
    assert(s@.subrange(0, s@.len() as int) == s@);
    while i < sc.len()
        invariant
            sc@ == s@,
            pc@ == pat@,
            rc@ == rep@,
            pat@.len() > 0,
            i <= sc.len(),
            out@ + replace_all(s@.subrange(i as int, s@.len() as int), pat@, rep@) == replace_all(
                s@,
                pat@,
                rep@,
            ),
        decreases sc.len() - i,
    {
        if pc.len() <= sc.len() - i && occurs_at_exec(&sc, &pc, i) {
            proof {
                lemma_replace_step(s@, i as int, pat@, rep@);
            }
            let ghost before = out@;
            let mut k: usize = 0;
            while k < rc.len()
                invariant
                    k <= rc.len(),
                    out@ == before + rc@.take(k as int),
                decreases rc.len() - k,
            {
                out.push(rc[k]);
                k = k + 1;
                assert(rc@.take(k as int) == rc@.take(k - 1).push(rc@[k - 1]));
            }
            assert(rc@.take(rc.len() as int) == rc@);
            assert(before + (rep@ + replace_all(s@.subrange(i + pat@.len(), s@.len() as int), pat@, rep@))
                == (before + rep@) + replace_all(s@.subrange(i + pat@.len(), s@.len() as int), pat@, rep@));
            i = i + pc.len();
        } else {
            let ghost before = out@;
            proof {
                if i + pat@.len() <= s@.len() {
                    lemma_replace_step(s@, i as int, pat@, rep@);
                } else {
                    let t = s@.subrange(i as int, s@.len() as int);
                    assert(t.len() < pat@.len());
                }
            }
            out.push(sc[i]);
            proof {
                if i + pat@.len() > s@.len() {
                    let t = s@.subrange(i as int, s@.len() as int);
                    let t1 = s@.subrange(i + 1, s@.len() as int);
                    assert(t1.len() < pat@.len());
                    assert(t == seq![s@[i as int]] + t1);
                }
                assert(before + (seq![s@[i as int]] + replace_all(s@.subrange(i + 1, s@.len() as int), pat@, rep@))
                    == before.push(s@[i as int]) + replace_all(s@.subrange(i + 1, s@.len() as int), pat@, rep@));
            }
            i = i + 1;
        }
    }
    assert(s@.subrange(i as int, s@.len() as int).len() == 0);
    assert(out@ + s@.subrange(i as int, s@.len() as int) == out@);
    string_of(out.as_slice())
}

// ---------------------------------------------------------------------------
// Numbers
// ---------------------------------------------------------------------------

proof fn lemma_digit_char(d: nat)
    requires
        d < 10,
    ensures
        is_digit(digit_char(d)),
        digit_value(digit_char(d)) == d,
{
}

/// The decimal text of `n` (`u64::to_string`).
pub fn decimal_text(n: u64) -> (r: String)
    ensures
        r@ == decimal(n as nat),
{
    // `digits` holds the low digits of `n`, least significant first.
    let mut digits: Vec<char> = Vec::new();
    let mut m: u64 = n;
    let ghost mut low: Seq<char> = Seq::empty();
    while m >= 10
        invariant
            decimal(n as nat) == decimal(m as nat) + low,
            digits@ == low.reverse(),
        decreases m,
    {
        let c = char_of_digit(m % 10);
        assert(decimal(m as nat) == decimal((m / 10) as nat) + seq![digit_char((m % 10) as nat)]);
        digits.push(c);
        proof {
            let old_low = low;
            low = seq![c] + low;
            assert(low.reverse() =~= old_low.reverse().push(c));
            assert(decimal(n as nat) == decimal((m / 10) as nat) + low);
        }
        m = m / 10;
    }
    let c = char_of_digit(m);
    digits.push(c);
    proof {
        let old_low = low;
        low = seq![c] + low;
        assert(low.reverse() =~= old_low.reverse().push(c));
    }
    let mut out: Vec<char> = Vec::new();
    let mut k: usize = digits.len();
    while k > 0
        invariant
            k <= digits.len(),
            digits@ == low.reverse(),
            low.len() == digits.len(),
            out@ == low.take(digits.len() - k),
        decreases k,
    {
        k = k - 1;
        out.push(digits[k]);
        assert(low.take(digits.len() - k) == low.take(digits.len() - k - 1).push(low[digits.len() - k - 1]));
    }
    assert(low.take(low.len() as int) == low);
    string_of(out.as_slice())
}

fn char_of_digit(d: u64) -> (c: char)
    requires
        d < 10,
    ensures
        c == digit_char(d as nat),
{
    if d == 0 { '0' }
    else if d == 1 { '1' }
    else if d == 2 { '2' }
    else if d == 3 { '3' }
    else if d == 4 { '4' }
    else if d == 5 { '5' }
    else if d == 6 { '6' }
    else if d == 7 { '7' }
    else if d == 8 { '8' }
    else { '9' }
}

/// Parses an unsigned integer of a type whose largest value is `max`
/// (`str::parse` for `u16`, `u64` or `usize`).
pub fn parse_unsigned(s: &str, max: u64) -> (r: Option<u64>)
    ensures
        r == (match parse_unsigned_within(s@, max as nat) {
            Some(v) => Some(v as u64),
            None => None::<u64>,
        }),
{
    let c = chars_of(s);
    let start: usize = if c.len() > 1 && c[0] == '+' { 1 } else { 0 };
    let ghost d = unsigned_digits(s@);
    assert(d == c@.subrange(start as int, c@.len() as int));
    if start >= c.len() {
        assert(d.len() == 0);
        return None;
    }
    let mut acc: u64 = 0;
    let mut over = false;
    let mut i: usize = start;
    assert(d.take(0) == Seq::<char>::empty());
    while i < c.len()
        invariant
            c@ == s@,
            start <= i <= c.len(),
            d == c@.subrange(start as int, c@.len() as int),
            d == unsigned_digits(s@),
            forall|k: int| 0 <= k < i - start ==> is_digit(#[trigger] d[k]),
            !over ==> acc == digits_value(d.take(i - start)) && acc <= max,
            over ==> digits_value(d.take(i - start)) > max,
        decreases c.len() - i,
    {
        let ch = c[i];
        if !('0' <= ch && ch <= '9') {
            assert(d[i - start] == c@[i as int]);
            assert(!is_digit(d[i - start]));
            assert(!(forall|k: int| 0 <= k < d.len() ==> is_digit(#[trigger] d[k])));
            assert(parse_unsigned_value(s@) is None);
            return None;
        }
        let dv: u64 = (ch as u32 - '0' as u32) as u64;
        let ghost prev = d.take(i - start);
        assert(d.take(i - start + 1) == prev.push(ch));
        proof {
            lemma_digits_value_push(prev, ch);
        }
        if !over {
            if acc > max / 10 {
                assert(acc * 10 > max) by (nonlinear_arith)
                    requires acc > max / 10;
                over = true;
            } else {
                assert(acc * 10 <= max) by (nonlinear_arith)
                    requires acc <= max / 10;
                if dv > max - acc * 10 {
                    over = true;
                } else {
                    acc = acc * 10 + dv;
                }
            }
        } else {
            assert(digits_value(prev) * 10 + digit_value(ch) > max) by (nonlinear_arith)
                requires digits_value(prev) > max;
        }
        i = i + 1;
    }
    assert(d.take(i - start) == d);
    if over {
        None
    } else {
        Some(acc)
    }
}

/// Parses a boolean (`bool::from_str`).
pub fn parse_bool(s: &str) -> (r: Option<bool>)
    ensures
        r == parse_bool_spec(s@),
{
    proof {
        reveal_strlit("true");
        reveal_strlit("false");
        assert("true"@ =~= seq!['t', 'r', 'u', 'e']);
        assert("false"@ =~= seq!['f', 'a', 'l', 's', 'e']);
    }
    if str_eq(s, "true") {
        Some(true)
    } else if str_eq(s, "false") {
        Some(false)
    } else {
        None
    }
}

/// The pieces of `s` between the occurrences of `sep`, each trimmed
/// (`s.split(sep).map(str::trim)`).
pub fn split_trimmed(s: &str, sep: char) -> (r: Vec<String>)
    ensures
        r@.map_values(|x: String| x@) == split_on(s@, sep).map_values(|p: Seq<char>| trimmed(p)),
{
    let c = chars_of(s);
    let mut out: Vec<String> = Vec::new();
    let mut cur: Vec<char> = Vec::new();
    let mut i: usize = 0;
    let ghost mut pieces: Seq<Seq<char>> = Seq::empty();
    assert(c@.subrange(0, c@.len() as int) == c@);
    while i < c.len()
        invariant
            c@ == s@,
            i <= c.len(),
            out@.map_values(|x: String| x@) == pieces.map_values(|p: Seq<char>| trimmed(p)),
            pieces + split_from(c@.subrange(i as int, c@.len() as int), sep, cur@) == split_on(s@, sep),
        decreases c.len() - i,
    {
        proof {
            lemma_split_step(c@, i as int, sep, cur@);
        }
        if c[i] == sep {
            let piece = string_of(cur.as_slice());
            let t = trim(piece.as_str());
            proof {
                let old_pieces = pieces;
                pieces = pieces.push(cur@);
                assert(old_pieces.push(cur@) + split_from(c@.subrange(i + 1, c@.len() as int), sep, Seq::empty())
                    == old_pieces + (seq![cur@] + split_from(c@.subrange(i + 1, c@.len() as int), sep, Seq::empty())));
            }
            let ghost old_out = out@;
            out.push(t);
            assert(out@.map_values(|x: String| x@) == old_out.map_values(|x: String| x@).push(t@));
            assert(pieces.map_values(|p: Seq<char>| trimmed(p)) == pieces.drop_last().map_values(|p: Seq<char>| trimmed(p)).push(trimmed(cur@)));
            cur = Vec::new();
        } else {
            cur.push(c[i]);
        }
        i = i + 1;
    }
    assert(c@.subrange(i as int, c@.len() as int) == Seq::<char>::empty());
    let piece = string_of(cur.as_slice());
    let t = trim(piece.as_str());
    let ghost old_out = out@;
    let ghost old_pieces = pieces;
    out.push(t);
    assert(out@.map_values(|x: String| x@) == old_out.map_values(|x: String| x@).push(t@));
    assert(old_pieces.push(cur@).map_values(|p: Seq<char>| trimmed(p)) == old_pieces.map_values(|p: Seq<char>| trimmed(p)).push(trimmed(cur@)));
    assert(old_pieces + seq![cur@] == old_pieces.push(cur@));
    out
}

// ---------------------------------------------------------------------------
// Laws
// ---------------------------------------------------------------------------

/// Replacing a pattern that does not occur leaves the text as it is.
pub proof fn lemma_replace_absent(s: Seq<char>, pat: Seq<char>, rep: Seq<char>)
    requires
        pat.len() > 0,
        !has_substring(s, pat),
    ensures
        replace_all(s, pat, rep) == s,
    decreases s.len(),
{
    if s.len() >= pat.len() {
        assert(!occurs_at(s, pat, 0));
        assert(s.subrange(0, pat.len() as int) != pat);
        let t = s.subrange(1, s.len() as int);
        assert forall|i: int| !occurs_at(t, pat, i) by {
            if occurs_at(t, pat, i) {
                assert(s.subrange(i + 1, i + 1 + pat.len()) =~= t.subrange(i, i + pat.len()));
                assert(occurs_at(s, pat, i + 1));
            }
        }
        lemma_replace_absent(t, pat, rep);
        assert(seq![s[0]] + t =~= s);
    }
}

proof fn lemma_decimal_digits(n: nat)
    ensures
        decimal(n).len() > 0,
        forall|i: int| 0 <= i < decimal(n).len() ==> is_digit(#[trigger] decimal(n)[i]),
        digits_value(decimal(n)) == n,
        decimal(n)[0] != '+',
    decreases n,
{
    if n < 10 {
        lemma_digit_char(n);
        assert(seq![digit_char(n)].drop_last() =~= Seq::<char>::empty());
        assert(digits_value(Seq::<char>::empty()) == 0);
        assert(digits_value(decimal(n)) == digits_value(Seq::<char>::empty()) * 10 + digit_value(digit_char(n)));
    } else {
        lemma_decimal_digits(n / 10);
        lemma_digit_char(n % 10);
        let d = decimal(n);
        assert(d.drop_last() =~= decimal(n / 10));
        assert(d.last() == digit_char(n % 10));
        assert(d[0] == decimal(n / 10)[0]);
        assert(digits_value(d) == digits_value(decimal(n / 10)) * 10 + digit_value(digit_char(n % 10)));
        assert(n == (n / 10) * 10 + n % 10);
    }
}

/// Reading back the decimal text of a number gives the number.
pub proof fn lemma_decimal_reads_back(n: nat)
    ensures
        parse_unsigned_value(decimal(n)) == Some(n),
{
    lemma_decimal_digits(n);
    assert(unsigned_digits(decimal(n)) == decimal(n));
}

/// Pieces put back together with `sep` between them.
pub open spec fn join_with(pieces: Seq<Seq<char>>, sep: char) -> Seq<char>
    decreases pieces.len(),
{
    if pieces.len() == 0 {
        Seq::empty()
    } else if pieces.len() == 1 {
        pieces[0]
    } else {
        pieces[0] + seq![sep] + join_with(pieces.drop_first(), sep)
    }
}

proof fn lemma_split_from_rejoins(s: Seq<char>, sep: char, cur: Seq<char>)
    requires
        !cur.contains(sep),
    ensures
        split_from(s, sep, cur).len() >= 1,
        join_with(split_from(s, sep, cur), sep) == cur + s,
        forall|k: int| 0 <= k < split_from(s, sep, cur).len() ==> !(#[trigger] split_from(s, sep, cur)[k]).contains(sep),
    decreases s.len(),
{
    let rest = s.subrange(1, s.len() as int);
    if s.len() == 0 {
        assert(cur + s =~= cur);
    } else if s[0] == sep {
        lemma_split_from_rejoins(rest, sep, Seq::empty());
        let tail = split_from(rest, sep, Seq::empty());
        let all = seq![cur] + tail;
        assert(all.drop_first() =~= tail);
        assert(Seq::<char>::empty() + rest =~= rest);
        assert(cur + seq![sep] + rest =~= cur + s);
        assert forall|k: int| 0 <= k < all.len() implies !(#[trigger] all[k]).contains(sep) by {
            if k > 0 {
                assert(all[k] == tail[k - 1]);
            }
        }
    } else {
        let c2 = cur.push(s[0]);
        assert(!c2.contains(sep)) by {
            if c2.contains(sep) {
                let w = choose|w: int| 0 <= w < c2.len() && c2[w] == sep;
                if w < cur.len() {
                    assert(cur[w] == sep);
                }
            }
        }
        lemma_split_from_rejoins(rest, sep, c2);
        assert(c2 + rest =~= cur + s);
    }
}

/// Splitting at `sep` cuts a text into pieces that hold no `sep` and give
/// the text back when put together with `sep` between them.
pub proof fn lemma_split_rejoins(s: Seq<char>, sep: char)
    ensures
        split_on(s, sep).len() >= 1,
        join_with(split_on(s, sep), sep) == s,
        forall|k: int| 0 <= k < split_on(s, sep).len() ==> !(#[trigger] split_on(s, sep)[k]).contains(sep),
{
    lemma_split_from_rejoins(s, sep, Seq::empty());
    assert(Seq::<char>::empty() + s =~= s);
}

/// A boolean reads only from the exact words `true` and `false`.
pub proof fn lemma_bool_words(s: Seq<char>)
    ensures
        parse_bool_spec(seq!['t', 'r', 'u', 'e']) == Some(true),
        parse_bool_spec(seq!['f', 'a', 'l', 's', 'e']) == Some(false),
        parse_bool_spec(s) is Some ==> s == seq!['t', 'r', 'u', 'e'] || s == seq!['f', 'a', 'l', 's', 'e'],
{
    assert(seq!['t', 'r', 'u', 'e'] != seq!['f', 'a', 'l', 's', 'e']) by {
        assert(seq!['t', 'r', 'u', 'e'].len() != seq!['f', 'a', 'l', 's', 'e'].len());
    }
}

/// A number read for a type never exceeds the type's largest value, an
/// empty text reads as no number, and the decimal text of a number within
/// range reads back as that number.
pub proof fn lemma_number_reading(s: Seq<char>, max: nat, n: nat)
    ensures
        parse_unsigned_within(s, max) matches Some(v) ==> v <= max,
        parse_unsigned_within(Seq::empty(), max) is None,
        n <= max ==> parse_unsigned_within(decimal(n), max) == Some(n),
{
    lemma_decimal_reads_back(n);
}

} // verus!
