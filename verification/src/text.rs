use vstd::prelude::*;
use vstd::std_specs::iter::IteratorSpec;

verus! {

/// The characters of a string slice, in order.
pub(crate) fn chars_of(s: &str) -> (v: Vec<char>)
    ensures
        v@ == s@,
{
    broadcast use {vstd::string::axiom_spec_iter, vstd::string::next_postcondition};

    let mut chars = s.chars();
    let mut v: Vec<char> = Vec::new();
    loop
        invariant
            v@ + chars.remaining() == s@,
            chars.decrease() is Some,
        ensures
            v@ == s@,
        decreases chars.decrease()->0,
    {
        match chars.next() {
            Some(c) => {
                v.push(c);
            },
            None => {
                break;
            },
        }
    }
    v
}

/// A string made of the given characters, in order.
///
/// Trusted: wraps `String::from_iter` over characters; the contract claims
/// only that the string holds exactly those characters.
#[verifier::external_body]
pub(crate) fn string_from_chars(chars: &Vec<char>) -> (s: String)
    ensures
        s@ == chars@,
{
    String::from_iter(chars.iter())
}

/// Number of bytes that UTF-8 needs for one character.
pub open spec fn char_utf8_len(c: char) -> nat {
    if (c as u32) < 0x80 {
        1
    } else if (c as u32) < 0x800 {
        2
    } else if (c as u32) < 0x10000 {
        3
    } else {
        4
    }
}

/// Number of bytes of the UTF-8 encoding of a character sequence.
pub open spec fn utf8_len(s: Seq<char>) -> nat
    decreases s.len(),
{
    if s.len() == 0 {
        0
    } else {
        utf8_len(s.drop_last()) + char_utf8_len(s.last())
    }
}

/// Byte length of the UTF-8 encoding of `chars[lo..hi]`, or `None` once it exceeds `limit`.
pub fn utf8_len_up_to(chars: &[char], lo: usize, hi: usize, limit: usize) -> (n: Option<usize>)
    requires
        lo <= hi <= chars@.len(),
    ensures
        match n {
            Some(n) => n as nat == utf8_len(chars@.subrange(lo as int, hi as int)) && n <= limit,
            None => utf8_len(chars@.subrange(lo as int, hi as int)) > limit,
        },
{
    let ghost full = chars@.subrange(lo as int, hi as int);
    let mut total: usize = 0;
    let mut i: usize = lo;
    proof {
        assert(chars@.subrange(lo as int, lo as int) =~= Seq::<char>::empty());
    }
    while i < hi
        invariant
            lo <= i <= hi,
            hi <= chars@.len(),
            full == chars@.subrange(lo as int, hi as int),
            total as nat == utf8_len(chars@.subrange(lo as int, i as int)),
            total <= limit,
        decreases hi - i,
    {
        let c = chars[i];
        let code = c as u32;
        let width: usize = if code < 0x80 {
            1
        } else if code < 0x800 {
            2
        } else if code < 0x10000 {
            3
        } else {
            4
        };
        proof {
            assert(chars@.subrange(lo as int, i + 1).drop_last() =~= chars@.subrange(lo as int, i as int));
            lemma_utf8_len_grows(chars@.subrange(lo as int, i + 1), chars@.subrange(i + 1, hi as int));
            assert(chars@.subrange(lo as int, i + 1) + chars@.subrange(i + 1, hi as int) =~= full);
        }
        if width > limit - total {
            return None;
        }
        total = total + width;
        i = i + 1;
    }
    Some(total)
}

/// Every character needs at least one byte.
pub proof fn lemma_utf8_len_at_least_len(s: Seq<char>)
    ensures
        utf8_len(s) >= s.len(),
    decreases s.len(),
{
    if s.len() > 0 {
        lemma_utf8_len_at_least_len(s.drop_last());
    }
}

/// UTF-8 length never shrinks when characters are appended.
pub proof fn lemma_utf8_len_grows(a: Seq<char>, b: Seq<char>)
    ensures
        utf8_len(a) <= utf8_len(a + b),
    decreases b.len(),
{
    if b.len() > 0 {
        lemma_utf8_len_grows(a, b.drop_last());
        assert((a + b).drop_last() =~= a + b.drop_last());
    }
}

/// Value of a hexadecimal digit (either case), if the character is one.
pub open spec fn hex_digit_value(c: char) -> Option<nat> {
    if '0' <= c && c <= '9' {
        Some((c as u32 - '0' as u32) as nat)
    } else if 'a' <= c && c <= 'f' {
        Some((c as u32 - 'a' as u32 + 10) as nat)
    } else if 'A' <= c && c <= 'F' {
        Some((c as u32 - 'A' as u32 + 10) as nat)
    } else {
        None
    }
}

/// Whether every character is a hexadecimal digit.
pub open spec fn all_hex_digits(s: Seq<char>) -> bool {
    forall|i: int| 0 <= i < s.len() ==> (#[trigger] hex_digit_value(s[i])) is Some
}

/// Numeric value of a string of hexadecimal digits, most significant first.
pub open spec fn hex_digits_value(s: Seq<char>) -> nat
    decreases s.len(),
{
    if s.len() == 0 {
        0
    } else {
        hex_digits_value(s.drop_last()) * 16 + hex_digit_value(s.last()).unwrap_or(0)
    }
}

/// What `u32::from_str_radix(s, 16)` returns: an optional `+`, then one or
/// more hexadecimal digits whose value fits in 32 bits.
pub open spec fn parse_hex_u32_spec(s: Seq<char>) -> Option<u32> {
    let digits = if s.len() > 0 && s[0] == '+' {
        s.drop_first()
    } else {
        s
    };
    if digits.len() == 0 || !all_hex_digits(digits) || hex_digits_value(digits) > u32::MAX {
        None
    } else {
        Some(hex_digits_value(digits) as u32)
    }
}

pub open spec fn pow16(n: nat) -> nat
    decreases n,
{
    if n == 0 {
        1
    } else {
        16 * pow16((n - 1) as nat)
    }
}

proof fn lemma_hex_value_bound(s: Seq<char>)
    requires
        all_hex_digits(s),
    ensures
        hex_digits_value(s) < pow16(s.len()),
    decreases s.len(),
{
    if s.len() > 0 {
        let p = s.drop_last();
        assert(all_hex_digits(p)) by {
            assert forall|i: int| 0 <= i < p.len() implies (#[trigger] hex_digit_value(p[i])) is Some by {
                assert(p[i] == s[i]);
            }
        }
        lemma_hex_value_bound(p);
        assert(hex_digit_value(s[s.len() - 1]) is Some);
        let v = hex_digits_value(p);
        let d = hex_digit_value(s.last()).unwrap();
        assert(d < 16);
        let q = pow16(p.len());
        assert(v * 16 + d < 16 * q) by (nonlinear_arith)
            requires
                v < q,
                d < 16,
        ;
    }
}

proof fn lemma_pow16_8()
    ensures
        pow16(8) == 0x1_0000_0000,
{
    reveal_with_fuel(pow16, 9);
}

/// Parses `s[lo..hi]`, at most eight characters, the way
/// `u32::from_str_radix(.., 16)` does.
pub fn parse_hex_u32(s: &[char], lo: usize, hi: usize) -> (r: Option<u32>)
    requires
        lo <= hi <= s@.len(),
        hi - lo <= 8,
    ensures
        r == parse_hex_u32_spec(s@.subrange(lo as int, hi as int)),
{
    let ghost text = s@.subrange(lo as int, hi as int);
    let start: usize = if lo < hi && s[lo] == '+' {
        lo + 1
    } else {
        lo
    };
    let ghost digits = if text.len() > 0 && text[0] == '+' {
        text.drop_first()
    } else {
        text
    };
    assert(digits =~= s@.subrange(start as int, hi as int));
    if start == hi {
        return None;
    }
    let mut acc: u64 = 0;
    let mut i: usize = start;
    proof {
        lemma_pow16_monotone(0, 8);
        assert(s@.subrange(start as int, start as int) =~= Seq::<char>::empty());
    }
    while i < hi
        invariant
            start <= i <= hi,
            hi <= s@.len(),
            hi - start <= 8,
            text == s@.subrange(lo as int, hi as int),
            digits =~= s@.subrange(start as int, hi as int),
            digits == (if text.len() > 0 && text[0] == '+' { text.drop_first() } else { text }),
            all_hex_digits(s@.subrange(start as int, i as int)),
            acc as nat == hex_digits_value(s@.subrange(start as int, i as int)),
            acc < pow16((i - start) as nat),
            pow16((i - start) as nat) <= pow16(8),
        decreases hi - i,
    {
        let c = s[i];
        let d: u64 = if '0' <= c && c <= '9' {
            (c as u32 - '0' as u32) as u64
        } else if 'a' <= c && c <= 'f' {
            (c as u32 - 'a' as u32 + 10) as u64
        } else if 'A' <= c && c <= 'F' {
            (c as u32 - 'A' as u32 + 10) as u64
        } else {
            assert(!all_hex_digits(digits)) by {
                assert(digits[i - start] == c);
                assert(hex_digit_value(digits[i - start]) is None);
            }
            assert(parse_hex_u32_spec(text) is None);
            return None;
        };
        let ghost before = s@.subrange(start as int, i as int);
        let ghost after = s@.subrange(start as int, i + 1);
        assert(after.drop_last() =~= before);
        assert(after.last() == c);
        assert(all_hex_digits(after)) by {
            assert forall|k: int| 0 <= k < after.len() implies (#[trigger] hex_digit_value(after[k])) is Some by {
                if k < before.len() {
                    assert(after[k] == before[k]);
                }
            }
        }
        proof {
            lemma_hex_value_bound(after);
            lemma_pow16_8();
            lemma_pow16_monotone((i + 1 - start) as nat, 8);
        }
        acc = acc * 16 + d;
        i = i + 1;
    }
    proof {
        lemma_pow16_8();
    }
    Some(acc as u32)
}

proof fn lemma_pow16_monotone(a: nat, b: nat)
    requires
        a <= b,
    ensures
        pow16(a) <= pow16(b),
    decreases b,
{
    if a < b {
        lemma_pow16_monotone(a, (b - 1) as nat);
    }
}

/// Lower-case hexadecimal digit for a value below 16.
pub open spec fn hex_char(d: nat) -> char {
    if d < 10 {
        (('0' as u32) + d) as char
    } else {
        (('a' as u32) + d - 10) as char
    }
}

/// The last `n` hexadecimal digits of `v`, zero-padded, most significant first.
pub open spec fn hex_digits(v: nat, n: nat) -> Seq<char>
    decreases n,
{
    if n == 0 {
        Seq::empty()
    } else {
        hex_digits(v / 16, (n - 1) as nat).push(hex_char(v % 16))
    }
}

fn hex_char_exec(d: u32) -> (c: char)
    requires
        d < 16,
    ensures
        c == hex_char(d as nat),
{
    if d < 10 {
        char_from_ascii((('0' as u32) + d) as u8)
    } else {
        char_from_ascii((('a' as u32) + d - 10) as u8)
    }
}

/// The character with the given ASCII code.
pub fn char_from_ascii(b: u8) -> (c: char)
    requires
        b < 128,
    ensures
        c == (b as u32) as char,
        c as u32 == b as u32,
{
    b as char
}

/// Formats `v` as `n` zero-padded lower-case hexadecimal digits, the way
/// `{:0nx}` does for a value that fits in `n` digits.
pub fn push_hex_digits(out: &mut Vec<char>, v: u32, n: usize)
    requires
        n <= 8,
    ensures
        final(out)@ == old(out)@ + hex_digits(v as nat, n as nat),
    decreases n,
{
    if n > 0 {
        push_hex_digits(out, v / 16, n - 1);
        out.push(hex_char_exec(v % 16));
    }
}

/// Hexadecimal digits read back give the value they were made from.
pub proof fn lemma_hex_digits_roundtrip(v: nat, n: nat)
    requires
        v < pow16(n),
    ensures
        hex_digits(v, n).len() == n,
        all_hex_digits(hex_digits(v, n)),
        hex_digits_value(hex_digits(v, n)) == v,
        forall|i: int| 0 <= i < n ==> #[trigger] char_utf8_len(hex_digits(v, n)[i]) == 1,
        forall|i: int| 0 <= i < n ==> hex_digits(v, n)[i] != ':' && hex_digits(v, n)[i] != '+',
    decreases n,
{
    if n > 0 {
        let q = v / 16;
        let r = v % 16;
        assert(q < pow16((n - 1) as nat)) by (nonlinear_arith)
            requires
                v < 16 * pow16((n - 1) as nat),
                q == v / 16,
        ;
        lemma_hex_digits_roundtrip(q, (n - 1) as nat);
        let s = hex_digits(v, n);
        let p = hex_digits(q, (n - 1) as nat);
        assert(s.drop_last() =~= p);
        assert(r < 16);
        assert(hex_digit_value(hex_char(r)) == Some(r));
        assert(all_hex_digits(s)) by {
            assert forall|i: int| 0 <= i < s.len() implies (#[trigger] hex_digit_value(s[i])) is Some by {
                if i < p.len() {
                    assert(s[i] == p[i]);
                }
            }
        }
        assert(q * 16 + r == v) by (nonlinear_arith)
            requires
                q == v / 16,
                r == v % 16,
        ;
        assert forall|i: int| 0 <= i < n implies #[trigger] char_utf8_len(s[i]) == 1 by {
            if i < p.len() {
                assert(s[i] == p[i]);
            }
        }
        assert forall|i: int| 0 <= i < n implies s[i] != ':' && s[i] != '+' by {
            if i < p.len() {
                assert(s[i] == p[i]);
            }
        }
    }
}

/// Decimal digits of `v`, most significant first, without padding.
pub open spec fn decimal_digits(v: nat) -> Seq<char>
    decreases v,
{
    if v < 10 {
        seq![(('0' as u32) + v) as char]
    } else {
        decimal_digits(v / 10).push((('0' as u32) + v % 10) as char)
    }
}

/// Appends the decimal representation of `v`, as `{}` formats it.
pub fn push_decimal(out: &mut Vec<char>, v: u64)
    ensures
        final(out)@ == old(out)@ + decimal_digits(v as nat),
    decreases v,
{
    if v >= 10 {
        push_decimal(out, v / 10);
    }
    out.push(char_from_ascii((v % 10) as u8 + 48));
}

/// Appends the characters of a string slice.
pub fn push_str(out: &mut Vec<char>, s: &str)
    ensures
        final(out)@ == old(out)@ + s@,
{
    let chars = chars_of(s);
    let mut i: usize = 0;
    let ghost start = out@;
    while i < chars.len()
        invariant
            i <= chars@.len(),
            chars@ == s@,
            out@ == start + chars@.subrange(0, i as int),
        decreases chars@.len() - i,
    {
        out.push(chars[i]);
        i = i + 1;
        assert(out@ =~= start + chars@.subrange(0, i as int));
    }
    assert(chars@.subrange(0, i as int) =~= chars@);
}

} // verus!
