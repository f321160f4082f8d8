//! Decimal outcomes and their binary digit tokens.

use vstd::prelude::*;

verus! {

/// Whether a character is an ASCII decimal digit.
pub open spec fn is_digit(c: char) -> bool {
    '0' <= c && c <= '9'
}

/// The value of a decimal digit.
pub open spec fn digit_value(c: char) -> int {
    c as int - '0' as int
}

/// The value of a string of decimal digits, most significant first.
pub open spec fn decimal_value(s: Seq<char>) -> int
    decreases s.len(),
{
    if s.len() == 0 {
        0
    } else {
        decimal_value(s.drop_last()) * 10 + digit_value(s.last())
    }
}

/// The digits of an unsigned decimal literal: an optional `+`, then the rest.
pub open spec fn unsigned_digits(s: Seq<char>) -> Seq<char> {
    if s.len() > 0 && s[0] == '+' {
        s.drop_first()
    } else {
        s
    }
}

/// The `u64` that a decimal literal denotes: one or more digits after an
/// optional `+`, with a value that fits in 64 bits.
pub open spec fn spec_parse_u64(s: Seq<char>) -> Option<u64> {
    let d = unsigned_digits(s);
    if d.len() > 0 && (forall|i: int| 0 <= i < d.len() ==> is_digit(#[trigger] d[i]))
        && decimal_value(d) <= u64::MAX {
        Some(decimal_value(d) as u64)
    } else {
        None
    }
}

/// The binary digits of `v`, least significant first, `n` of them.
pub open spec fn bits_lsb_first(v: nat, n: nat) -> Seq<nat>
    decreases n,
{
    if n == 0 {
        seq![]
    } else {
        seq![v % 2] + bits_lsb_first(v / 2, (n - 1) as nat)
    }
}

/// The token that stands for a binary digit.
pub open spec fn bit_token(b: nat) -> Seq<char> {
    if b == 1 {
        "1"@
    } else {
        "0"@
    }
}

/// The tokens of the first `n` binary digits of `v`, least significant first.
pub open spec fn spec_digit_tokens(v: nat, n: nat) -> Seq<Seq<char>> {
    bits_lsb_first(v, n).map_values(|b: nat| bit_token(b))
}

/// The views of a vector of strings.
pub open spec fn strings_view(v: Seq<String>) -> Seq<Seq<char>> {
    v.map_values(|s: String| s@)
}

proof fn lemma_decimal_prefix_grows(s: Seq<char>, k: int)
    requires
        0 <= k <= s.len(),
        forall|i: int| 0 <= i < s.len() ==> is_digit(#[trigger] s[i]),
    ensures
        decimal_value(s.subrange(0, k)) <= decimal_value(s),
        0 <= decimal_value(s.subrange(0, k)),
    decreases s.len() - k,
{
    if k < s.len() {
        lemma_decimal_prefix_grows(s, k + 1);
        assert(s.subrange(0, k + 1).drop_last() =~= s.subrange(0, k));
    } else {
        assert(s.subrange(0, k) =~= s);
        lemma_decimal_nonneg(s);
    }
}

proof fn lemma_decimal_nonneg(s: Seq<char>)
    requires
        forall|i: int| 0 <= i < s.len() ==> is_digit(#[trigger] s[i]),
    ensures
        0 <= decimal_value(s),
    decreases s.len(),
{
    if s.len() > 0 {
        assert(forall|i: int| 0 <= i < s.drop_last().len() ==> #[trigger] s.drop_last()[i] == s[i]);
        lemma_decimal_nonneg(s.drop_last());
    }
}

/// Parses an unsigned decimal literal, as `str::parse::<u64>` does.
pub fn parse_u64(s: &str) -> (r: Option<u64>)
    ensures
        r == spec_parse_u64(s@),
{
    let n = s.unicode_len();
    let start: usize = if n > 0 && s.get_char(0) == '+' {
        1
    } else {
        0
    };
    let ghost d = unsigned_digits(s@);
    assert(d =~= s@.subrange(start as int, n as int));
    if start >= n {
        return None;
    }
    let mut value: u64 = 0;
    let mut i: usize = start;
    while i < n
        invariant
            n == s@.len(),
            start <= i <= n,
            d == s@.subrange(start as int, n as int),
            d == unsigned_digits(s@),
            forall|j: int| 0 <= j < i - start ==> is_digit(#[trigger] d[j]),
            value as int == decimal_value(d.subrange(0, i - start)),
        decreases n - i,
    {
        let c = s.get_char(i);
        assert(d[i - start] == c);
        if c < '0' || c > '9' {
            assert(!is_digit(d[i - start]));
            return None;
        }
        let dv = (c as u32 - '0' as u32) as u64;
        assert(d.subrange(0, i + 1 - start).drop_last() =~= d.subrange(0, i - start));
        if value > 1844674407370955161 || (value == 1844674407370955161 && dv > 5) {
            proof {
                let k = i + 1 - start;
                assert(d.subrange(0, k).last() == c);
                assert(decimal_value(d.subrange(0, k)) > u64::MAX);
                if forall|j: int| 0 <= j < d.len() ==> is_digit(#[trigger] d[j]) {
                    lemma_decimal_prefix_grows(d, k);
                }
            }
            return None;
        }
        value = value * 10 + dv;
        i = i + 1;
    }
    assert(d.subrange(0, n - start) =~= d);
    Some(value)
}

/// The token of a binary digit, as a string.
fn bit_string(b: u64) -> (r: String)
    requires
        b < 2,
    ensures
        r@ == bit_token(b as nat),
{
    if b == 1 {
        "1".to_owned()
    } else {
        "0".to_owned()
    }
}

/// The tokens of the first `n` binary digits of `v`, least significant first,
/// each `"0"` or `"1"`; digits past the 64th are `"0"`.
pub fn digit_tokens(v: u64, n: u16) -> (r: Vec<String>)
    ensures
        strings_view(r@) == spec_digit_tokens(v as nat, n as nat),
{
    let mut out: Vec<String> = Vec::new();
    let mut cur: u64 = v;
    let mut i: u16 = 0;
    while i < n
        invariant
            0 <= i <= n,
            strings_view(out@) + spec_digit_tokens(cur as nat, (n - i) as nat) == spec_digit_tokens(
                v as nat,
                n as nat,
            ),
        decreases n - i,
    {
        let t = bit_string(cur % 2);
        proof {
            let rest = (n - i) as nat;
            assert(bits_lsb_first(cur as nat, rest) == seq![(cur as nat) % 2] + bits_lsb_first(
                (cur as nat) / 2,
                (rest - 1) as nat,
            ));
            assert(spec_digit_tokens(cur as nat, rest) =~= seq![bit_token((cur % 2) as nat)]
                + spec_digit_tokens((cur / 2) as nat, (rest - 1) as nat));
            assert(strings_view(out@.push(t)) =~= strings_view(out@).push(t@));
        }
        out.push(t);
        cur = cur / 2;
        i = i + 1;
        assert(strings_view(out@) + spec_digit_tokens(cur as nat, (n - i) as nat) =~= spec_digit_tokens(
            v as nat,
            n as nat,
        ));
    }
    assert(spec_digit_tokens(cur as nat, 0) =~= Seq::<Seq<char>>::empty());
    assert(strings_view(out@) + spec_digit_tokens(cur as nat, 0) =~= strings_view(out@));
    out
}

} // verus!
