//! Character and string groundwork: whitespace classification, decimal
//! rendering of small integers, and substring matching over `Seq<char>`.

use vstd::prelude::*;

verus! {

/// A character with the Unicode `White_Space` property, the set that
/// `str::trim` removes from either end of a string.
pub open spec fn is_ws_char(c: char) -> bool {
    let u = c as u32;
    ||| u == 0x20
    ||| (0x09 <= u && u <= 0x0d)
    ||| u == 0x85
    ||| u == 0xa0
    ||| u == 0x1680
    ||| (0x2000 <= u && u <= 0x200a)
    ||| u == 0x2028
    ||| u == 0x2029
    ||| u == 0x202f
    ||| u == 0x205f
    ||| u == 0x3000
}

/// Decides `is_ws_char`.
pub fn char_is_ws(c: char) -> (r: bool)
    ensures
        r == is_ws_char(c),
{
    let u = c as u32;
    u == 0x20 || (0x09 <= u && u <= 0x0d) || u == 0x85 || u == 0xa0 || u == 0x1680
        || (0x2000 <= u && u <= 0x200a) || u == 0x2028 || u == 0x2029 || u == 0x202f
        || u == 0x205f || u == 0x3000
}

/// The character for one decimal digit.
pub open spec fn dec_digit(d: nat) -> char
    recommends
        d < 10,
{
    if d == 0 {
        '0'
    } else if d == 1 {
        '1'
    } else if d == 2 {
        '2'
    } else if d == 3 {
        '3'
    } else if d == 4 {
        '4'
    } else if d == 5 {
        '5'
    } else if d == 6 {
        '6'
    } else if d == 7 {
        '7'
    } else if d == 8 {
        '8'
    } else {
        '9'
    }
}

/// Decimal rendering of a natural number, most significant digit first,
/// without leading zeros (zero itself renders as a single `'0'`).
pub open spec fn dec_rep(n: nat) -> Seq<char>
    decreases n,
{
    if n < 10 {
        seq![dec_digit(n)]
    } else {
        dec_rep(n / 10).push(dec_digit(n % 10))
    }
}

/// One decimal digit as a string slice.
fn dec_digit_str(d: u8) -> (r: &'static str)
    requires
        d < 10,
    ensures
        r@ =~= seq![dec_digit(d as nat)],
{
    let digits: &'static str = "0123456789";
    proof {
        reveal_strlit("0123456789");
    }
    digits.substring_char(d as usize, d as usize + 1)
}

/// Renders a `u8` in decimal.
pub fn u8_to_decimal(n: u8) -> (r: String)
    ensures
        r@ == dec_rep(n as nat),
{
    let mut r = String::new();
    if n >= 100 {
        r.append(dec_digit_str(n / 100));
    }
    if n >= 10 {
        r.append(dec_digit_str((n / 10) % 10));
    }
    r.append(dec_digit_str(n % 10));
    proof {
        reveal_with_fuel(dec_rep, 4);
        if n >= 100 {
            assert(n / 10 >= 10 && n / 10 < 100);
            assert((n / 10) / 10 == n / 100) by (nonlinear_arith);
            assert(dec_rep(n as nat) =~= seq![
                dec_digit((n / 100) as nat),
                dec_digit(((n / 10) % 10) as nat),
                dec_digit((n % 10) as nat),
            ]);
            assert(r@ =~= dec_rep(n as nat));
        } else if n >= 10 {
            assert(dec_rep(n as nat) =~= seq![
                dec_digit(((n / 10) % 10) as nat),
                dec_digit((n % 10) as nat),
            ]);
            assert(r@ =~= dec_rep(n as nat));
        } else {
            assert(dec_rep(n as nat) =~= seq![dec_digit((n % 10) as nat)]);
            assert(r@ =~= dec_rep(n as nat));
        }
    }
    r
}

/// `pat` occurs in `s` as the contiguous block starting at index `i`.
pub open spec fn occurs_at(s: Seq<char>, pat: Seq<char>, i: int) -> bool {
    0 <= i && i + pat.len() <= s.len() && s.subrange(i, i + pat.len() as int) == pat
}

/// `pat` occurs somewhere in `s`.
pub open spec fn contains_seq(s: Seq<char>, pat: Seq<char>) -> bool {
    exists|i: int| occurs_at(s, pat, i)
}

/// Decides whether two string slices hold the same characters.
pub fn str_eq(a: &str, b: &str) -> (r: bool)
    ensures
        r == (a@ == b@),
{
    let la = a.unicode_len();
    let lb = b.unicode_len();
    if la != lb {
        return false;
    }
    let mut i: usize = 0;
    while i < la
        invariant
            i <= la,
            la == a@.len(),
            la == b@.len(),
            forall|k: int| 0 <= k < i ==> a@[k] == b@[k],
        decreases la - i,
    {
        if a.get_char(i) != b.get_char(i) {
            return false;
        }
        i += 1;
    }
    proof {
        assert(a@ =~= b@);
    }
    true
}

/// Decides whether `pat` occurs in `s` at position `i`.
pub fn matches_at(s: &str, pat: &str, i: usize) -> (r: bool)
    requires
        i + pat@.len() <= s@.len(),
        s@.len() <= usize::MAX,
    ensures
        r == occurs_at(s@, pat@, i as int),
{
    let m = pat.unicode_len();
    let mut k: usize = 0;
    while k < m
        invariant
            k <= m,
            m == pat@.len(),
            i + m <= s@.len(),
            s@.len() <= usize::MAX,
            forall|j: int| 0 <= j < k ==> s@[i + j] == pat@[j],
        decreases m - k,
    {
        if s.get_char(i + k) != pat.get_char(k) {
            proof {
                assert(s@.subrange(i as int, i + pat@.len() as int) != pat@) by {
                    assert(s@.subrange(i as int, i + pat@.len() as int)[k as int] == s@[i + k]);
                }
            }
            return false;
        }
        k += 1;
    }
    proof {
        assert(s@.subrange(i as int, i + pat@.len() as int) =~= pat@);
    }
    true
}

/// Finds the first occurrence of `pat` in `s` at a position `>= start`.
pub fn find_from(s: &str, pat: &str, start: usize) -> (r: Option<usize>)
    requires
        pat@.len() > 0,
    ensures
        match r {
            Some(i) => start <= i && occurs_at(s@, pat@, i as int) && (forall|j: int|
                start <= j < i ==> !occurs_at(s@, pat@, j)),
            None => forall|j: int| j >= start ==> !occurs_at(s@, pat@, j),
        },
{
    let n = s.unicode_len();
    let m = pat.unicode_len();
    if m > n || start > n - m {
        return None;
    }
    let mut i: usize = start;
    while i <= n - m
        invariant
            start <= i,
            1 <= m <= n,
            n == s@.len(),
            m == pat@.len(),
            i <= n - m + 1,
            forall|j: int| start <= j < i ==> !occurs_at(s@, pat@, j),
        decreases n - m - i + 1,
    {
        if matches_at(s, pat, i) {
            return Some(i);
        }
        i += 1;
    }
    None
}

/// `s` with leading whitespace removed.
pub open spec fn trim_start_spec(s: Seq<char>) -> Seq<char>
    decreases s.len(),
{
    if s.len() > 0 && is_ws_char(s[0]) {
        trim_start_spec(s.drop_first())
    } else {
        s
    }
}

/// `s` with trailing whitespace removed.
pub open spec fn trim_end_spec(s: Seq<char>) -> Seq<char>
    decreases s.len(),
{
    if s.len() > 0 && is_ws_char(s[s.len() - 1]) {
        trim_end_spec(s.drop_last())
    } else {
        s
    }
}

/// `s` with both leading and trailing whitespace removed, as `str::trim`
/// leaves it.
pub open spec fn trim_spec(s: Seq<char>) -> Seq<char> {
    trim_end_spec(trim_start_spec(s))
}

proof fn lemma_trim_start_at(s: Seq<char>, a: int)
    requires
        0 <= a <= s.len(),
        forall|k: int| 0 <= k < a ==> is_ws_char(s[k]),
        a < s.len() ==> !is_ws_char(s[a]),
    ensures
        trim_start_spec(s) == s.subrange(a, s.len() as int),
    decreases a,
{
    if a == 0 {
        assert(s.subrange(0, s.len() as int) =~= s);
    } else {
        let t = s.drop_first();
        assert(forall|k: int| 0 <= k < a - 1 ==> is_ws_char(t[k]));
        lemma_trim_start_at(t, a - 1);
        assert(t.subrange(a - 1, t.len() as int) =~= s.subrange(a, s.len() as int));
    }
}

proof fn lemma_trim_end_at(s: Seq<char>, b: int)
    requires
        0 <= b <= s.len(),
        forall|k: int| b <= k < s.len() ==> is_ws_char(s[k]),
        b > 0 ==> !is_ws_char(s[b - 1]),
    ensures
        trim_end_spec(s) == s.subrange(0, b),
    decreases s.len(),
{
    if b == s.len() {
        if s.len() == 0 {
            assert(s.subrange(0, 0) =~= s);
        } else {
            assert(s.subrange(0, s.len() as int) =~= s);
        }
    } else {
        assert(is_ws_char(s[s.len() - 1]));
        let t = s.drop_last();
        lemma_trim_end_at(t, b);
        assert(t.subrange(0, b) =~= s.subrange(0, b));
    }
}

/// Copies `s` without its leading and trailing whitespace.
pub fn trim_to_string(s: &str) -> (r: String)
    ensures
        r@ == trim_spec(s@),
{
    let n = s.unicode_len();
    let mut a: usize = 0;
    loop
        invariant
            a <= n,
            n == s@.len(),
            forall|k: int| 0 <= k < a ==> is_ws_char(s@[k]),
        ensures
            a <= n,
            n == s@.len(),
            a == n || !is_ws_char(s@[a as int]),
            forall|k: int| 0 <= k < a ==> is_ws_char(s@[k]),
        decreases n - a,
    {
        if a >= n {
            break ;
        }
        if !char_is_ws(s.get_char(a)) {
            break ;
        }
        a += 1;
    }
    let mut b: usize = n;
    loop
        invariant
            a <= b <= n,
            n == s@.len(),
            a == n || !is_ws_char(s@[a as int]),
            forall|k: int| b <= k < n ==> is_ws_char(s@[k]),
        ensures
            a <= b <= n,
            n == s@.len(),
            b == a || !is_ws_char(s@[b - 1]),
            forall|k: int| b <= k < n ==> is_ws_char(s@[k]),
        decreases b,
    {
        if b <= a {
            break ;
        }
        if !char_is_ws(s.get_char(b - 1)) {
            break ;
        }
        b -= 1;
    }
    let t = s.substring_char(a, b);
    let r = String::from_str(t);
    proof {
        lemma_trim_start_at(s@, a as int);
        let t1 = s@.subrange(a as int, n as int);
        if b == a {
            lemma_trim_end_at(t1, 0);
        } else {
            assert(!is_ws_char(t1[b - a - 1]));
            lemma_trim_end_at(t1, b - a);
        }
        assert(t1.subrange(0, b - a) =~= s@.subrange(a as int, b as int));
    }
    r
}

} // verus!
