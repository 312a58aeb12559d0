//! Character-sequence helpers shared by the parsers and serializers:
//! searching, ASCII case-insensitive matching, and decimal / hexadecimal numbers.
use vstd::prelude::*;

verus! {

/// First index in `[from, hi)` at which `s` holds `c`, or `hi` when there is none.
pub open spec fn find_char(s: Seq<char>, from: int, hi: int, c: char) -> int
    decreases hi - from,
{
    if from >= hi {
        hi
    } else if s[from] == c {
        from
    } else {
        find_char(s, from + 1, hi, c)
    }
}

pub proof fn lemma_find_char_bounds(s: Seq<char>, from: int, hi: int, c: char)
    requires
        from <= hi,
    ensures
        from <= find_char(s, from, hi, c) <= hi,
        forall|k: int| from <= k < find_char(s, from, hi, c) ==> s[k] != c,
    decreases hi - from,
{
    if from < hi && s[from] != c {
        lemma_find_char_bounds(s, from + 1, hi, c);
    }
}

/// `find_char` stops at the first `c` after a stretch without one.
pub proof fn lemma_find_char_at(s: Seq<char>, from: int, hi: int, c: char, k: int)
    requires
        from <= k <= hi,
        forall|j: int| from <= j < k ==> s[j] != c,
        k == hi || s[k] == c,
    ensures
        find_char(s, from, hi, c) == k,
    decreases k - from,
{
    if from < k {
        lemma_find_char_at(s, from + 1, hi, c, k);
    }
}

/// Whether `c` equals the character `u` up to ASCII case (`u` is taken as written).
pub open spec fn char_matches(c: char, u: char) -> bool {
    c == u || ('A' <= u <= 'Z' && c as u32 == u as u32 + 32) || ('a' <= u <= 'z' && c as u32
        == u as u32 - 32)
}

/// Whether `tok` spells `lit`, ignoring ASCII case.
pub open spec fn token_is(tok: Seq<char>, lit: Seq<char>) -> bool {
    tok.len() == lit.len() && forall|i: int| 0 <= i < tok.len() ==> char_matches(tok[i], lit[i])
}

/// Whether `s` begins with exactly the characters of `lit`.
pub open spec fn has_prefix(s: Seq<char>, lit: Seq<char>) -> bool {
    lit.len() <= s.len() && s.subrange(0, lit.len() as int) == lit
}

/// The value of digit `c` in base `radix` (10 or 16), if it is one.
pub open spec fn digit_value(c: char, radix: nat) -> Option<nat> {
    if '0' <= c <= '9' {
        Some((c as u32 - '0' as u32) as nat)
    } else if radix == 16 && 'a' <= c <= 'f' {
        Some((c as u32 - 'a' as u32 + 10) as nat)
    } else if radix == 16 && 'A' <= c <= 'F' {
        Some((c as u32 - 'A' as u32 + 10) as nat)
    } else {
        None
    }
}

pub open spec fn all_digits(s: Seq<char>, radix: nat) -> bool {
    forall|i: int| 0 <= i < s.len() ==> (#[trigger] digit_value(s[i], radix)) is Some
}

/// The number that the digits of `s` spell in base `radix`, most significant first.
pub open spec fn digits_value(s: Seq<char>, radix: nat) -> nat
    decreases s.len(),
{
    if s.len() == 0 {
        0
    } else {
        digits_value(s.drop_last(), radix) * radix + digit_value(s.last(), radix).unwrap_or(0)
    }
}

/// The unsigned number written in `s`: one or more digits of base `radix`, at most `max`.
pub open spec fn parse_number(s: Seq<char>, radix: nat, max: nat) -> Option<nat> {
    if s.len() > 0 && all_digits(s, radix) && digits_value(s, radix) <= max {
        Some(digits_value(s, radix))
    } else {
        None
    }
}

pub open spec fn digit_char(d: nat) -> char {
    if d == 0 {
        '0'
    } else if d == 1 {
        '1'
    } else if d == 2 {
        '2'
    } else if d == 3 {
        '3'
    } else if d == 4 {
        '4'
    } else if d == 5 {
        '5'
    } else if d == 6 {
        '6'
    } else if d == 7 {
        '7'
    } else if d == 8 {
        '8'
    } else {
        '9'
    }
}

/// The shortest decimal writing of `n`.
pub open spec fn decimal_text(n: nat) -> Seq<char>
    decreases n,
{
    if n < 10 {
        seq![digit_char(n)]
    } else {
        decimal_text(n / 10).push(digit_char(n % 10))
    }
}

pub proof fn lemma_digits_value_mono(s: Seq<char>, k: int, radix: nat)
    requires
        0 <= k <= s.len(),
        radix >= 1,
    ensures
        digits_value(s.subrange(0, k), radix) <= digits_value(s, radix),
    decreases s.len(),
{
    if k < s.len() {
        lemma_digits_value_mono(s.drop_last(), k, radix);
        assert(s.drop_last().subrange(0, k) =~= s.subrange(0, k));
        assert(digits_value(s.drop_last(), radix) <= digits_value(s, radix)) by (nonlinear_arith)
            requires
                digits_value(s, radix) == digits_value(s.drop_last(), radix) * radix
                    + digit_value(s.last(), radix).unwrap_or(0),
                radix >= 1,
        {}
    } else {
        assert(s.subrange(0, k) =~= s);
    }
}

pub proof fn lemma_digit_char(d: nat)
    requires
        d < 10,
    ensures
        digit_value(digit_char(d), 10) == Some(d),
        '0' <= digit_char(d) <= '9',
{
}

pub proof fn lemma_decimal_text(n: nat)
    ensures
        decimal_text(n).len() > 0,
        all_digits(decimal_text(n), 10),
        digits_value(decimal_text(n), 10) == n,
        forall|i: int|
            0 <= i < decimal_text(n).len() ==> '0' <= #[trigger] decimal_text(n)[i] <= '9',
    decreases n,
{
    lemma_digit_char(n % 10);
    if n < 10 {
        assert(n % 10 == n);
        assert(decimal_text(n).drop_last() =~= Seq::<char>::empty());
        assert(decimal_text(n).last() == digit_char(n));
        assert(digits_value(decimal_text(n).drop_last(), 10) == 0);
        assert(digits_value(decimal_text(n), 10) == digits_value(decimal_text(n).drop_last(), 10)
            * 10 + digit_value(digit_char(n), 10).unwrap_or(0));
    } else {
        lemma_decimal_text(n / 10);
        let t = decimal_text(n);
        assert(n == (n / 10) * 10 + n % 10);
        assert(t.drop_last() =~= decimal_text(n / 10));
        assert(t.last() == digit_char(n % 10));
        assert(digits_value(t, 10) == digits_value(decimal_text(n / 10), 10) * 10 + n % 10);
        assert forall|i: int| 0 <= i < t.len() implies (#[trigger] digit_value(t[i], 10)) is Some by {
            if i < t.len() - 1 {
                assert(t[i] == decimal_text(n / 10)[i]);
            }
        }
    }
}

/// Relies on `String::push`: the character is appended at the end.
#[verifier::external_body]
pub(crate) fn push_char(s: &mut String, c: char)
    ensures
        final(s)@ == old(s)@.push(c),
{
    s.push(c);
}

/// Appends `lit` to `s`.
pub fn push_str(s: &mut String, lit: &str)
    ensures
        final(s)@ == old(s)@ + lit@,
{
    s.append(lit);
}

/// The characters of `s`, one per element.
pub fn chars_of(s: &str) -> (r: Vec<char>)
    ensures
        r@ == s@,
{
    let n = s.unicode_len();
    let mut r: Vec<char> = Vec::new();
    let mut i: usize = 0;
    while i < n
        invariant
            n == s@.len(),
            i <= n,
            r@ == s@.subrange(0, i as int),
        decreases n - i,
    {
        let c = s.get_char(i);
        r.push(c);
        i = i + 1;
        assert(r@ =~= s@.subrange(0, i as int));
    }
    assert(r@ =~= s@);
    r
}

/// The characters of `v[lo..hi]` as a string.
pub fn string_of(v: &Vec<char>, lo: usize, hi: usize) -> (r: String)
    requires
        lo <= hi <= v@.len(),
    ensures
        r@ == v@.subrange(lo as int, hi as int),
{
    let mut r = String::new();
    let mut i: usize = lo;
    while i < hi
        invariant
            lo <= i <= hi <= v@.len(),
            r@ == v@.subrange(lo as int, i as int),
        decreases hi - i,
    {
        push_char(&mut r, v[i]);
        i = i + 1;
        assert(r@ =~= v@.subrange(lo as int, i as int));
    }
    r
}

/// First index in `[from, hi)` at which `v` holds `c`, or `hi`.
pub fn find(v: &Vec<char>, from: usize, hi: usize, c: char) -> (r: usize)
    requires
        from <= hi <= v@.len(),
    ensures
        r == find_char(v@, from as int, hi as int, c),
        from <= r <= hi,
        r < hi ==> v@[r as int] == c,
{
    let mut i: usize = from;
    while i < hi && v[i] != c
        invariant
            from <= i <= hi <= v@.len(),
            find_char(v@, from as int, hi as int, c) == find_char(v@, i as int, hi as int, c),
        decreases hi - i,
    {
        i = i + 1;
    }
    i
}

/// Whether `v[lo..hi]` spells `lit`, ignoring ASCII case.
pub fn token_matches(v: &Vec<char>, lo: usize, hi: usize, lit: &str) -> (r: bool)
    requires
        lo <= hi <= v@.len(),
    ensures
        r == token_is(v@.subrange(lo as int, hi as int), lit@),
{
    let n = lit.unicode_len();
    if hi - lo != n {
        return false;
    }
    let mut i: usize = 0;
    while i < n
        invariant
            n == lit@.len(),
            hi - lo == n,
            lo <= hi <= v@.len(),
            i <= n,
            forall|k: int| 0 <= k < i ==> char_matches(v@[lo + k], lit@[k]),
        decreases n - i,
    {
        let c = v[lo + i];
        let u = lit.get_char(i);
        let ok = c == u || ('A' <= u && u <= 'Z' && c as u32 == u as u32 + 32) || ('a' <= u && u
            <= 'z' && c as u32 == u as u32 - 32);
        if !ok {
            return false;
        }
        i = i + 1;
    }
    true
}

/// Whether `v[lo..hi]` is exactly `lit`.
pub fn same_text(v: &Vec<char>, lo: usize, hi: usize, lit: &str) -> (r: bool)
    requires
        lo <= hi <= v@.len(),
    ensures
        r == (v@.subrange(lo as int, hi as int) == lit@),
{
    let n = lit.unicode_len();
    if hi - lo != n {
        return false;
    }
    let r = starts_with(v, lo, hi, lit);
    assert(v@.subrange(lo as int, hi as int).subrange(0, n as int) =~= v@.subrange(lo as int, hi as int));
    r
}

/// First index at or after `from` in `[from, hi)` that does not hold a space.
pub open spec fn skip_spaces(s: Seq<char>, from: int, hi: int) -> int
    decreases hi - from,
{
    if from < hi && s[from] == ' ' {
        skip_spaces(s, from + 1, hi)
    } else {
        from
    }
}

pub fn skip_space(v: &Vec<char>, from: usize, hi: usize) -> (r: usize)
    requires
        from <= hi <= v@.len(),
    ensures
        r == skip_spaces(v@, from as int, hi as int),
        from <= r <= hi,
{
    let mut i: usize = from;
    while i < hi && v[i] == ' '
        invariant
            from <= i <= hi <= v@.len(),
            skip_spaces(v@, from as int, hi as int) == skip_spaces(v@, i as int, hi as int),
        decreases hi - i,
    {
        i = i + 1;
    }
    i
}

/// Whether `v[lo..hi]` begins with exactly the characters of `lit`.
pub fn starts_with(v: &Vec<char>, lo: usize, hi: usize, lit: &str) -> (r: bool)
    requires
        lo <= hi <= v@.len(),
    ensures
        r == has_prefix(v@.subrange(lo as int, hi as int), lit@),
{
    let n = lit.unicode_len();
    if hi - lo < n {
        return false;
    }
    let mut i: usize = 0;
    while i < n
        invariant
            n == lit@.len(),
            n <= hi - lo,
            lo <= hi <= v@.len(),
            i <= n,
            forall|k: int| 0 <= k < i ==> v@[lo + k] == lit@[k],
        decreases n - i,
    {
        if v[lo + i] != lit.get_char(i) {
            assert(v@.subrange(lo as int, hi as int).subrange(0, n as int)[i as int] != lit@[i as int]);
            return false;
        }
        i = i + 1;
    }
    assert(v@.subrange(lo as int, hi as int).subrange(0, n as int) =~= lit@);
    true
}

fn digit_of(c: char, radix: u32) -> (r: Option<u32>)
    requires
        radix == 10 || radix == 16,
    ensures
        r matches Some(d) ==> digit_value(c, radix as nat) == Some(d as nat) && d < radix,
        r is None ==> digit_value(c, radix as nat) is None,
{
    if '0' <= c && c <= '9' {
        Some(c as u32 - '0' as u32)
    } else if radix == 16 && 'a' <= c && c <= 'f' {
        Some(c as u32 - 'a' as u32 + 10)
    } else if radix == 16 && 'A' <= c && c <= 'F' {
        Some(c as u32 - 'A' as u32 + 10)
    } else {
        None
    }
}

/// The number written in `v[lo..hi]` in base `radix`, if it is one of at most `max`.
pub fn read_number(v: &Vec<char>, lo: usize, hi: usize, radix: u32, max: u32) -> (r: Option<u32>)
    requires
        lo <= hi <= v@.len(),
        radix == 10 || radix == 16,
    ensures
        r matches Some(n) ==> parse_number(v@.subrange(lo as int, hi as int), radix as nat, max as nat)
            == Some(n as nat),
        r is None ==> parse_number(v@.subrange(lo as int, hi as int), radix as nat, max as nat) is None,
{
    let ghost s = v@.subrange(lo as int, hi as int);
    if lo == hi {
        return None;
    }
    let mut acc: u64 = 0;
    let mut i: usize = lo;
    while i < hi
        invariant
            lo <= i <= hi <= v@.len(),
            radix == 10 || radix == 16,
            s == v@.subrange(lo as int, hi as int),
            acc as nat == digits_value(s.subrange(0, i - lo), radix as nat),
            acc <= max,
            all_digits(s.subrange(0, i - lo), radix as nat),
        decreases hi - i,
    {
        let ghost pre = s.subrange(0, i - lo);
        let ghost next = s.subrange(0, i - lo + 1);
        assert(next.drop_last() =~= pre);
        assert(next.last() == v@[i as int]);
        match digit_of(v[i], radix) {
            None => {
                assert(digit_value(s[i - lo], radix as nat) is None);
                return None;
            },
            Some(d) => {
                assert(acc * (radix as u64) + d as u64 <= 0xffff_ffff * 16 + 16) by (nonlinear_arith)
                    requires
                        acc <= 0xffff_ffff,
                        radix <= 16,
                        d < radix,
                {}
                let val: u64 = acc * (radix as u64) + d as u64;
                assert(val as nat == digits_value(next, radix as nat));
                if val > max as u64 {
                    proof {
                        lemma_digits_value_mono(s, i - lo + 1, radix as nat);
                    }
                    return None;
                }
                acc = val;
                i = i + 1;
                assert forall|k: int| 0 <= k < i - lo implies (#[trigger] digit_value(
                    s.subrange(0, i - lo)[k],
                    radix as nat,
                )) is Some by {
                    if k < i - lo - 1 {
                        assert(s.subrange(0, i - lo)[k] == pre[k]);
                    }
                }
            },
        }
    }
    assert(s.subrange(0, hi - lo) =~= s);
    Some(acc as u32)
}

/// Appends the decimal writing of `n` to `s`.
pub fn push_decimal(s: &mut String, n: u64)
    ensures
        final(s)@ == old(s)@ + decimal_text(n as nat),
    decreases n,
{
    if n >= 10 {
        push_decimal(s, n / 10);
    }
    let d = n % 10;
    let c = if d == 0 {
        '0'
    } else if d == 1 {
        '1'
    } else if d == 2 {
        '2'
    } else if d == 3 {
        '3'
    } else if d == 4 {
        '4'
    } else if d == 5 {
        '5'
    } else if d == 6 {
        '6'
    } else if d == 7 {
        '7'
    } else if d == 8 {
        '8'
    } else {
        '9'
    };
    push_char(s, c);
    assert(c == digit_char((n % 10) as nat));
    assert(s@ =~= old(s)@ + decimal_text(n as nat));
}

} // verus!
