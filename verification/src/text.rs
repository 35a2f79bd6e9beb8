//! Text helpers: decimal rendering of integers and ASCII case folding,
//! each stated against a short mathematical definition.
use vstd::prelude::*;

verus! {

/// The text of one decimal digit.
pub open spec fn digit_text(d: nat) -> Seq<char> {
    if d == 0 {
        "0"@
    } else if d == 1 {
        "1"@
    } else if d == 2 {
        "2"@
    } else if d == 3 {
        "3"@
    } else if d == 4 {
        "4"@
    } else if d == 5 {
        "5"@
    } else if d == 6 {
        "6"@
    } else if d == 7 {
        "7"@
    } else if d == 8 {
        "8"@
    } else {
        "9"@
    }
}

/// Decimal notation of a natural number, without leading zeros.
pub open spec fn nat_decimal(n: nat) -> Seq<char>
    decreases n,
{
    if n < 10 {
        digit_text(n)
    } else {
        nat_decimal(n / 10) + digit_text(n % 10)
    }
}

/// Decimal notation of an integer, as Rust's `Display` writes it.
pub open spec fn int_decimal(i: int) -> Seq<char> {
    if i < 0 {
        "-"@ + nat_decimal((-i) as nat)
    } else {
        nat_decimal(i as nat)
    }
}

/// How `Display` writes a `bool`.
pub open spec fn bool_text(b: bool) -> Seq<char> {
    if b {
        "true"@
    } else {
        "false"@
    }
}

fn digit_str(d: u64) -> (s: &'static str)
    requires
        d < 10,
    ensures
        s@ == digit_text(d as nat),
{
    if d == 0 {
        "0"
    } else if d == 1 {
        "1"
    } else if d == 2 {
        "2"
    } else if d == 3 {
        "3"
    } else if d == 4 {
        "4"
    } else if d == 5 {
        "5"
    } else if d == 6 {
        "6"
    } else if d == 7 {
        "7"
    } else if d == 8 {
        "8"
    } else {
        "9"
    }
}

/// Appends the decimal notation of `n`.
pub fn push_nat_decimal(out: &mut String, n: u64)
    ensures
        final(out)@ == old(out)@ + nat_decimal(n as nat),
    decreases n,
{
    if n >= 10 {
        push_nat_decimal(out, n / 10);
    }
    out.append(digit_str(n % 10));
}

/// Appends the decimal notation of `v`, with a leading `-` when negative.
pub fn push_int_decimal(out: &mut String, v: i64)
    ensures
        final(out)@ == old(out)@ + int_decimal(v as int),
{
    if v < 0 {
        out.append("-");
        let magnitude: u64 = (-(v as i128)) as u64;
        push_nat_decimal(out, magnitude);
    } else {
        push_nat_decimal(out, v as u64);
    }
}

/// Appends `true` or `false`.
pub fn push_bool(out: &mut String, b: bool)
    ensures
        final(out)@ == old(out)@ + bool_text(b),
{
    if b {
        out.append("true");
    } else {
        out.append("false");
    }
}

/// ASCII lower-casing of one character, as `char::to_ascii_lowercase` does it.
pub open spec fn ascii_lower(c: char) -> char {
    if 'A' <= c && c <= 'Z' {
        ((c as u32) + 32) as char
    } else {
        c
    }
}

/// ASCII lower-casing of a text; other characters are kept.
pub open spec fn ascii_lower_text(s: Seq<char>) -> Seq<char> {
    s.map_values(|c: char| ascii_lower(c))
}

/// `t` occurs in `s` as a contiguous run.
pub open spec fn text_contains(s: Seq<char>, t: Seq<char>) -> bool {
    exists|i: int| 0 <= i && i + t.len() <= s.len() && #[trigger] s.subrange(i, i + t.len()) == t
}

fn lower_char(c: char) -> (r: char)
    ensures
        r == ascii_lower(c),
{
    if 'A' <= c && c <= 'Z' {
        let code: u8 = c as u8;
        (code + 32) as char
    } else {
        c
    }
}

/// The characters of `s`, ASCII lower-cased.
pub fn ascii_lowercase_chars(s: &str) -> (v: Vec<char>)
    ensures
        v@ == ascii_lower_text(s@),
{
    let n = s.unicode_len();
    let mut v: Vec<char> = Vec::new();
    let mut i: usize = 0;
    while i < n
        invariant
            n == s@.len(),
            i <= n,
            v@ == ascii_lower_text(s@.subrange(0, i as int)),
        decreases n - i,
    {
        let c = s.get_char(i);
        v.push(lower_char(c));
        assert(s@.subrange(0, i + 1) == s@.subrange(0, i as int).push(c));
        i = i + 1;
    }
    assert(s@.subrange(0, n as int) == s@);
    v
}

/// Whether `token` occurs in `chars`.
pub fn chars_contain(chars: &Vec<char>, token: &str) -> (b: bool)
    ensures
        b == text_contains(chars@, token@),
{
    let n = chars.len();
    let m = token.unicode_len();
    if m > n {
        assert forall|i: int| 0 <= i && i + token@.len() <= chars@.len() implies
            #[trigger] chars@.subrange(i, i + token@.len()) != token@ by {}
        return false;
    }
    let mut i: usize = 0;
    while i <= n - m
        invariant
            m == token@.len(),
            n == chars@.len(),
            m <= n,
            i <= n - m + 1,
            forall|k: int| 0 <= k < i ==> #[trigger] chars@.subrange(k, k + m) != token@,
        decreases n - i,
    {
        let mut j: usize = 0;
        let mut same = true;
        while j < m && same
            invariant
                m == token@.len(),
                n == chars@.len(),
                i + m <= n,
                j <= m,
                same == (forall|k: int| 0 <= k < j ==> chars@[i + k] == token@[k]),
            decreases m - j,
        {
            if chars[i + j] != token.get_char(j) {
                same = false;
            }
            j = j + 1;
        }
        if same {
            assert(chars@.subrange(i as int, i + m) =~= token@);
            return true;
        }
        assert(chars@.subrange(i as int, i + m) != token@) by {
            let k = choose|k: int| 0 <= k < j && chars@[i + k] != token@[k];
            assert(chars@.subrange(i as int, i + m)[k] == chars@[i + k]);
        }
        i = i + 1;
    }
    assert forall|k: int| 0 <= k && k + token@.len() <= chars@.len() implies
        #[trigger] chars@.subrange(k, k + token@.len()) != token@ by {
        assert(k < i);
    }
    false
}

} // verus!
