//! Text helpers over `str`/`String` with their meaning as `Seq<char>`.
use vstd::prelude::*;
use vstd::string::*;

verus! {

/// The text an optional string holds.
pub open spec fn opt_str(o: Option<String>) -> Option<Seq<char>> {
    match o {
        Some(s) => Some(s@),
        None => None,
    }
}

/// Rust's order on strings (byte order of UTF-8, which is the order of the
/// code points): `a` sorts strictly before `b`.
pub open spec fn lex_lt(a: Seq<char>, b: Seq<char>) -> bool
    decreases a.len(),
{
    if a.len() == 0 {
        b.len() > 0
    } else if b.len() == 0 {
        false
    } else if (a[0] as int) < (b[0] as int) {
        true
    } else if (a[0] as int) > (b[0] as int) {
        false
    } else {
        lex_lt(a.drop_first(), b.drop_first())
    }
}

proof fn lemma_lex_lt_skip(a: Seq<char>, b: Seq<char>, i: int)
    requires
        0 <= i <= a.len(),
        i <= b.len(),
        a.take(i) == b.take(i),
    ensures
        lex_lt(a, b) == lex_lt(a.skip(i), b.skip(i)),
    decreases i,
{
    if i > 0 {
        assert(a[0] == a.take(i)[0]);
        assert(b[0] == b.take(i)[0]);
        assert(a.drop_first().take(i - 1) =~= a.take(i).drop_first());
        assert(b.drop_first().take(i - 1) =~= b.take(i).drop_first());
        lemma_lex_lt_skip(a.drop_first(), b.drop_first(), i - 1);
        assert(a.drop_first().skip(i - 1) =~= a.skip(i));
        assert(b.drop_first().skip(i - 1) =~= b.skip(i));
    } else {
        assert(a.skip(0) =~= a);
        assert(b.skip(0) =~= b);
    }
}

/// `a < b` in Rust's order on strings.
pub fn str_lt(a: &str, b: &str) -> (r: bool)
    ensures
        r == lex_lt(a@, b@),
{
    let la = a.unicode_len();
    let lb = b.unicode_len();
    let mut i: usize = 0;
    while i < la && i < lb
        invariant
            la == a@.len(),
            lb == b@.len(),
            i <= la,
            i <= lb,
            a@.take(i as int) == b@.take(i as int),
        decreases la - i,
    {
        let ca = a.get_char(i);
        let cb = b.get_char(i);
        if (ca as u32) < (cb as u32) {
            proof {
                lemma_lex_lt_skip(a@, b@, i as int);
            }
            return true;
        }
        if (ca as u32) > (cb as u32) {
            proof {
                lemma_lex_lt_skip(a@, b@, i as int);
            }
            return false;
        }
        assert(a@.take(i + 1) =~= a@.take(i as int).push(ca));
        assert(b@.take(i + 1) =~= b@.take(i as int).push(cb));
        i = i + 1;
    }
    proof {
        lemma_lex_lt_skip(a@, b@, i as int);
    }
    i == la && i < lb
}

/// `t` occurs in `s` at position `i`.
pub open spec fn occurs_at(s: Seq<char>, t: Seq<char>, i: int) -> bool {
    0 <= i && i + t.len() <= s.len() && s.subrange(i, i + t.len()) == t
}

/// `t` occurs somewhere in `s` (`str::contains` for a `&str` pattern).
pub open spec fn has_substring(s: Seq<char>, t: Seq<char>) -> bool {
    exists|i: int| occurs_at(s, t, i)
}

/// Whether `t` occurs in `s` at position `i`, comparing character by character.
fn matches_at(s: &str, t: &str, i: usize, ls: usize, lt: usize) -> (r: bool)
    requires
        ls == s@.len(),
        lt == t@.len(),
        i + lt <= ls,
    ensures
        r == occurs_at(s@, t@, i as int),
{
    let mut j: usize = 0;
    while j < lt
        invariant
            ls == s@.len(),
            lt == t@.len(),
            i + lt <= ls,
            j <= lt,
            forall|k: int| 0 <= k < j ==> s@[i + k] == t@[k],
        decreases lt - j,
    {
        if s.get_char(i + j) != t.get_char(j) {
            assert(s@.subrange(i as int, i + lt)[j as int] != t@[j as int]);
            return false;
        }
        j = j + 1;
    }
    assert(s@.subrange(i as int, i + lt) =~= t@);
    true
}

/// `s.contains(t)`.
pub fn str_contains(s: &str, t: &str) -> (r: bool)
    ensures
        r == has_substring(s@, t@),
{
    let ls = s.unicode_len();
    let lt = t.unicode_len();
    if lt > ls {
        assert forall|i: int| !occurs_at(s@, t@, i) by {}
        return false;
    }
    if lt == 0 {
        assert(s@.subrange(0, 0) =~= t@);
        assert(occurs_at(s@, t@, 0));
        return true;
    }
    let mut i: usize = 0;
    while i <= ls - lt
        invariant
            ls == s@.len(),
            lt == t@.len(),
            1 <= lt <= ls,
            i <= ls - lt + 1,
            forall|k: int| 0 <= k < i ==> !occurs_at(s@, t@, k),
        decreases ls - lt + 1 - i,
    {
        if matches_at(s, t, i, ls, lt) {
            return true;
        }
        i = i + 1;
    }
    assert forall|k: int| !occurs_at(s@, t@, k) by {
        if 0 <= k < i {
        }
    }
    false
}

/// Unicode lower-casing as `str::to_lowercase` performs it.
pub uninterp spec fn lowercase(s: Seq<char>) -> Seq<char>;

/// Calls `str::to_lowercase`, which maps each character to its Unicode
/// lower-case form; the contract only names the result as a function of the
/// input text and says nothing of the case tables themselves.
#[verifier::external_body]
pub(crate) fn to_lowercase(s: &str) -> (r: String)
    ensures
        r@ == lowercase(s@),
{
    s.to_lowercase()
}

/// The characters that `char::is_whitespace` accepts: Unicode `White_Space`.
pub open spec fn is_white(c: char) -> bool {
    let u = c as u32;
    ||| 0x09 <= u <= 0x0d
    ||| u == 0x20
    ||| u == 0x85
    ||| u == 0xa0
    ||| u == 0x1680
    ||| 0x2000 <= u <= 0x200a
    ||| u == 0x2028
    ||| u == 0x2029
    ||| u == 0x202f
    ||| u == 0x205f
    ||| u == 0x3000
}

/// `char::is_whitespace`.
pub fn char_is_white(c: char) -> (r: bool)
    ensures
        r == is_white(c),
{
    let u = c as u32;
    (0x09 <= u && u <= 0x0d) || u == 0x20 || u == 0x85 || u == 0xa0 || u == 0x1680 || (0x2000 <= u
        && u <= 0x200a) || u == 0x2028 || u == 0x2029 || u == 0x202f || u == 0x205f || u == 0x3000
}

/// Number of leading whitespace characters of `s`.
pub open spec fn lead_white(s: Seq<char>) -> nat
    decreases s.len(),
{
    if s.len() > 0 && is_white(s[0]) {
        1 + lead_white(s.drop_first())
    } else {
        0
    }
}

/// Number of trailing whitespace characters of `s`.
pub open spec fn trail_white(s: Seq<char>) -> nat
    decreases s.len(),
{
    if s.len() > 0 && is_white(s.last()) {
        1 + trail_white(s.drop_last())
    } else {
        0
    }
}

/// `str::trim`: `s` without leading and trailing whitespace.
pub open spec fn trim_spec(s: Seq<char>) -> Seq<char> {
    if lead_white(s) == s.len() {
        Seq::empty()
    } else {
        s.subrange(lead_white(s) as int, s.len() - trail_white(s))
    }
}

proof fn lemma_lead_white(s: Seq<char>, i: int)
    requires
        0 <= i <= s.len(),
        forall|k: int| 0 <= k < i ==> is_white(#[trigger] s[k]),
        i == s.len() || !is_white(s[i]),
    ensures
        lead_white(s) == i,
    decreases i,
{
    if i > 0 {
        assert forall|k: int| 0 <= k < i - 1 implies is_white(#[trigger] s.drop_first()[k]) by {
            assert(s.drop_first()[k] == s[k + 1]);
        }
        lemma_lead_white(s.drop_first(), i - 1);
    }
}

proof fn lemma_trail_white(s: Seq<char>, i: int)
    requires
        0 <= i <= s.len(),
        forall|k: int| s.len() - i <= k < s.len() ==> is_white(#[trigger] s[k]),
        i == s.len() || !is_white(s[s.len() - i - 1]),
    ensures
        trail_white(s) == i,
    decreases i,
{
    if i > 0 {
        assert forall|k: int| s.len() - 1 - (i - 1) <= k < s.len() - 1 implies is_white(
            #[trigger] s.drop_last()[k],
        ) by {
            assert(s.drop_last()[k] == s[k]);
        }
        lemma_trail_white(s.drop_last(), i - 1);
    }
}

proof fn lemma_lead_le(s: Seq<char>)
    ensures
        lead_white(s) <= s.len(),
    decreases s.len(),
{
    if s.len() > 0 && is_white(s[0]) {
        lemma_lead_le(s.drop_first());
    }
}

/// `s.trim().to_owned()`.
pub fn trim(s: &str) -> (r: String)
    ensures
        r@ == trim_spec(s@),
{
    let n = s.unicode_len();
    let mut a: usize = 0;
    while a < n && char_is_white(s.get_char(a))
        invariant
            n == s@.len(),
            a <= n,
            forall|k: int| 0 <= k < a ==> is_white(#[trigger] s@[k]),
        decreases n - a,
    {
        a = a + 1;
    }
    proof {
        lemma_lead_white(s@, a as int);
    }
    if a == n {
        return String::new();
    }
    let mut b: usize = n;
    while b > a && char_is_white(s.get_char(b - 1))
        invariant
            n == s@.len(),
            a < n,
            !is_white(s@[a as int]),
            a <= b <= n,
            forall|k: int| b <= k < n ==> is_white(#[trigger] s@[k]),
        decreases b,
    {
        b = b - 1;
    }
    proof {
        lemma_trail_white(s@, (n - b) as int);
    }
    String::from_str(s.substring_char(a, b))
}

/// The ASCII decimal digit for `d < 10`.
pub open spec fn digit_char(d: nat) -> char {
    if d == 0 {
        '0'
    } else if d == 1 {
        '1'
    } else if d == 2 {
        '2'
    } else if d == 3 {
        '3'
    } else if d == 4 {
        '4'
    } else if d == 5 {
        '5'
    } else if d == 6 {
        '6'
    } else if d == 7 {
        '7'
    } else if d == 8 {
        '8'
    } else {
        '9'
    }
}

/// Decimal notation of `n`, as `Display` writes an unsigned integer.
pub open spec fn decimal(n: nat) -> Seq<char>
    decreases n,
{
    if n < 10 {
        seq![digit_char(n)]
    } else {
        decimal(n / 10) + seq![digit_char(n % 10)]
    }
}

fn digit_str(d: u64) -> (r: &'static str)
    requires
        d < 10,
    ensures
        r@ == seq![digit_char(d as nat)],
{
    if d == 0 {
        proof { reveal_strlit("0"); }
        "0"
    } else if d == 1 {
        proof { reveal_strlit("1"); }
        "1"
    } else if d == 2 {
        proof { reveal_strlit("2"); }
        "2"
    } else if d == 3 {
        proof { reveal_strlit("3"); }
        "3"
    } else if d == 4 {
        proof { reveal_strlit("4"); }
        "4"
    } else if d == 5 {
        proof { reveal_strlit("5"); }
        "5"
    } else if d == 6 {
        proof { reveal_strlit("6"); }
        "6"
    } else if d == 7 {
        proof { reveal_strlit("7"); }
        "7"
    } else if d == 8 {
        proof { reveal_strlit("8"); }
        "8"
    } else {
        proof { reveal_strlit("9"); }
        "9"
    }
}

/// `n.to_string()` for an unsigned integer.
pub fn decimal_string(n: u64) -> (r: String)
    ensures
        r@ == decimal(n as nat),
    decreases n,
{
    if n < 10 {
        String::from_str(digit_str(n))
    } else {
        let mut s = decimal_string(n / 10);
        s.append(digit_str(n % 10));
        s
    }
}

/// `a + b` for strings.
pub fn cat(a: &str, b: &str) -> (r: String)
    ensures
        r@ == a@ + b@,
{
    let mut s = String::from_str(a);
    s.append(b);
    s
}

/// `s.starts_with(p)`.
pub open spec fn starts_with(s: Seq<char>, p: Seq<char>) -> bool {
    p.len() <= s.len() && s.take(p.len() as int) == p
}

/// `s.ends_with(p)`.
pub open spec fn ends_with(s: Seq<char>, p: Seq<char>) -> bool {
    p.len() <= s.len() && s.skip(s.len() - p.len()) == p
}

/// Whether `t` occurs in `s` at `i`, by characters.
fn same_at(s: &str, t: &str, i: usize) -> (r: bool)
    requires
        i + t@.len() <= s@.len() <= usize::MAX,
    ensures
        r == (s@.subrange(i as int, i + t@.len()) == t@),
{
    let lt = t.unicode_len();
    let mut j: usize = 0;
    while j < lt
        invariant
            lt == t@.len(),
            i + lt <= s@.len() <= usize::MAX,
            j <= lt,
            forall|k: int| 0 <= k < j ==> s@[i + k] == t@[k],
        decreases lt - j,
    {
        if s.get_char(i + j) != t.get_char(j) {
            assert(s@.subrange(i as int, i + lt)[j as int] != t@[j as int]);
            return false;
        }
        j = j + 1;
    }
    assert(s@.subrange(i as int, i + lt) =~= t@);
    true
}

/// `s.starts_with(p)` for a `&str` pattern.
pub fn str_starts_with(s: &str, p: &str) -> (r: bool)
    ensures
        r == starts_with(s@, p@),
{
    let ls = s.unicode_len();
    let lp = p.unicode_len();
    if lp > ls {
        return false;
    }
    let r = same_at(s, p, 0);
    assert(s@.subrange(0, lp as int) =~= s@.take(lp as int));
    r
}

/// `s.ends_with(p)` for a `&str` pattern.
pub fn str_ends_with(s: &str, p: &str) -> (r: bool)
    ensures
        r == ends_with(s@, p@),
{
    let ls = s.unicode_len();
    let lp = p.unicode_len();
    if lp > ls {
        return false;
    }
    let r = same_at(s, p, ls - lp);
    assert(s@.subrange((ls - lp) as int, ls as int) =~= s@.skip(ls - lp));
    r
}

/// `String::from(s)`.
pub fn owned(s: &str) -> (r: String)
    ensures
        r@ == s@,
{
    String::from_str(s)
}

/// `s == t` for two `&str`.
pub fn str_eq(s: &str, t: &str) -> (r: bool)
    ensures
        r == (s@ == t@),
{
    String::from_str(s) == String::from_str(t)
}

/// The text `{s:?}` shows: `s` quoted, with Rust's escapes.
pub uninterp spec fn debug_quoted_spec(s: Seq<char>) -> Seq<char>;

/// Formats `s` with `Debug` (`format!("{s:?}")`): the string in double
/// quotes with quotes, backslashes and non-printable characters escaped.
/// The contract names the result as a function of `s` only.
#[verifier::external_body]
pub(crate) fn debug_quoted(s: &str) -> (r: String)
    ensures
        r@ == debug_quoted_spec(s@),
{
    format!("{s:?}")
}

/// Decimal notation of a signed integer.
pub open spec fn int_decimal(n: int) -> Seq<char> {
    if n < 0 {
        "-"@ + decimal((-n) as nat)
    } else {
        decimal(n as nat)
    }
}

/// `n.to_string()` for an `i64`.
pub fn i64_decimal_string(n: i64) -> (r: String)
    ensures
        r@ == int_decimal(n as int),
{
    if n < 0 {
        let m: u64 = (0i128 - (n as i128)) as u64;
        let d = decimal_string(m);
        cat("-", d.as_str())
    } else {
        decimal_string(n as u64)
    }
}

} // verus!
