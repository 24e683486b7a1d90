use vstd::prelude::*;

use crate::config::{first_index_of, is_parse_error, ConfigError};
use crate::text::{chars_of, decimal_digits, push_decimal, push_str, string_from_chars};

verus! {

/// Whether a character has the Unicode `White_Space` property: the ASCII
/// controls U+0009 to U+000D, the space U+0020, U+0085, U+00A0, U+1680, the
/// spaces U+2000 to U+200A, U+2028, U+2029, U+202F, U+205F and U+3000.
pub open spec fn unicode_white_space(c: char) -> bool {
    let u = c as u32;
    ||| 0x09 <= u <= 0x0D
    ||| u == 0x20
    ||| u == 0x85
    ||| u == 0xA0
    ||| u == 0x1680
    ||| 0x2000 <= u <= 0x200A
    ||| u == 0x2028
    ||| u == 0x2029
    ||| u == 0x202F
    ||| u == 0x205F
    ||| u == 0x3000
}

/// Whether `c` is white space, as `char::is_whitespace` defines it: the
/// character has the Unicode `White_Space` property.
fn is_white_space(c: char) -> (r: bool)
    ensures
        r == unicode_white_space(c),
{
    let u = c as u32;
    (0x09 <= u && u <= 0x0D) || u == 0x20 || u == 0x85 || u == 0xA0 || u == 0x1680 || (0x2000
        <= u && u <= 0x200A) || u == 0x2028 || u == 0x2029 || u == 0x202F || u == 0x205F || u
        == 0x3000
}

/// The lines of `s` split at `'\n'`, scanning from `i` with the current line
/// `cur` and the finished lines `acc`.
pub open spec fn lines_from(s: Seq<char>, i: int, cur: Seq<char>, acc: Seq<Seq<char>>) -> Seq<Seq<char>>
    decreases s.len() - i,
{
    if i >= s.len() {
        acc.push(cur)
    } else if s[i] == '\n' {
        lines_from(s, i + 1, Seq::empty(), acc.push(cur))
    } else {
        lines_from(s, i + 1, cur.push(s[i]), acc)
    }
}

/// The lines of a text: the pieces between `'\n'` characters. (A `'\r'`
/// before the `'\n'` stays on its line, where it counts as white space.)
pub open spec fn text_lines(s: Seq<char>) -> Seq<Seq<char>> {
    lines_from(s, 0, Seq::empty(), Seq::empty())
}

/// The lines of `contents`, numbered from one by their position.
pub fn split_lines(contents: &str) -> (lines: Vec<Vec<char>>)
    ensures
        lines@.map_values(|l: Vec<char>| l@) == text_lines(contents@),
{
    let chars = chars_of(contents);
    let mut lines: Vec<Vec<char>> = Vec::new();
    let mut cur: Vec<char> = Vec::new();
    let mut i: usize = 0;
    assert(lines@.map_values(|l: Vec<char>| l@) =~= Seq::<Seq<char>>::empty());
    assert(cur@ =~= Seq::<char>::empty());
    while i < chars.len()
        invariant
            i <= chars@.len(),
            chars@ == contents@,
            lines_from(chars@, i as int, cur@, lines@.map_values(|l: Vec<char>| l@)) == text_lines(
                contents@,
            ),
        decreases chars@.len() - i,
    {
        let c = chars[i];
        if c == '\n' {
            let mut done: Vec<char> = Vec::new();
            std::mem::swap(&mut done, &mut cur);
            let ghost before = lines@.map_values(|l: Vec<char>| l@);
            lines.push(done);
            assert(lines@.map_values(|l: Vec<char>| l@) =~= before.push(done@));
        } else {
            cur.push(c);
        }
        i = i + 1;
    }
    let ghost before = lines@.map_values(|l: Vec<char>| l@);
    lines.push(cur);
    assert(lines@.map_values(|l: Vec<char>| l@) =~= before.push(cur@));
    lines
}

/// A line without its comment: everything before the first `'#'`.
pub open spec fn comment_stripped(line: Seq<char>) -> Seq<char> {
    match first_index_of(line, '#') {
        Some(i) => line.take(i),
        None => line,
    }
}

/// The white-space separated tokens of `s`, scanning from `i` with the
/// current token `cur` and the finished tokens `acc`.
pub open spec fn tokens_from(s: Seq<char>, i: int, cur: Seq<char>, acc: Seq<Seq<char>>) -> Seq<Seq<char>>
    decreases s.len() - i,
{
    let closed = if cur.len() > 0 {
        acc.push(cur)
    } else {
        acc
    };
    if i >= s.len() {
        closed
    } else if unicode_white_space(s[i]) {
        tokens_from(s, i + 1, Seq::empty(), closed)
    } else {
        tokens_from(s, i + 1, cur.push(s[i]), acc)
    }
}

/// The tokens of a line: its longest runs of characters that are not white
/// space, comment excluded.
pub open spec fn line_tokens(line: Seq<char>) -> Seq<Seq<char>> {
    tokens_from(comment_stripped(line), 0, Seq::empty(), Seq::empty())
}

/// The character sequences of some character vectors.
pub open spec fn texts(v: Seq<Vec<char>>) -> Seq<Seq<char>> {
    v.map_values(|t: Vec<char>| t@)
}

/// One line of a `.cube` file, as tokens.
pub struct CubeLine {
    pub tokens: Vec<Vec<char>>,
}

impl CubeLine {
    /// Splits a line into its tokens, after dropping its comment.
    pub fn read(line: &Vec<char>) -> (r: CubeLine)
        ensures
            texts(r.tokens@) == line_tokens(line@),
    {
        let mut end: usize = 0;
        while end < line.len() && line[end] != '#'
            invariant
                end <= line@.len(),
                forall|j: int| 0 <= j < end ==> line@[j] != '#',
            decreases line@.len() - end,
        {
            end = end + 1;
        }
        proof {
            if end < line@.len() {
                let k = choose|k: int|
                    0 <= k < line@.len() && line@[k] == '#' && forall|j: int|
                        0 <= j < k ==> line@[j] != '#';
                assert(k == end) by {
                    if k < end {
                        assert(line@[k] != '#');
                    }
                    if k > end {
                        assert(line@[end as int] == '#');
                    }
                }
            }
            assert(comment_stripped(line@) =~= line@.subrange(0, end as int));
        }
        let ghost s = comment_stripped(line@);
        let mut tokens: Vec<Vec<char>> = Vec::new();
        let mut cur: Vec<char> = Vec::new();
        let mut i: usize = 0;
        assert(texts(tokens@) =~= Seq::<Seq<char>>::empty());
        assert(cur@ =~= Seq::<char>::empty());
        while i < end
            invariant
                i <= end <= line@.len(),
                s == line@.subrange(0, end as int),
                tokens_from(s, i as int, cur@, texts(tokens@)) == line_tokens(line@),
            decreases end - i,
        {
            let c = line[i];
            assert(s[i as int] == c);
            let ghost cur0 = cur@;
            let ghost acc0 = texts(tokens@);
            let ghost closed0 = if cur0.len() > 0 {
                acc0.push(cur0)
            } else {
                acc0
            };
            if is_white_space(c) {
                if cur.len() > 0 {
                    let mut done: Vec<char> = Vec::new();
                    std::mem::swap(&mut done, &mut cur);
                    let ghost before = texts(tokens@);
                    tokens.push(done);
                    assert(texts(tokens@) =~= before.push(done@));
                }
                assert(cur@ =~= Seq::<char>::empty());
                assert(texts(tokens@) == closed0);
                assert(tokens_from(s, i as int, cur0, acc0) == tokens_from(
                    s,
                    i + 1,
                    Seq::empty(),
                    closed0,
                ));
            } else {
                cur.push(c);
                assert(tokens_from(s, i as int, cur0, acc0) == tokens_from(
                    s,
                    i + 1,
                    cur0.push(c),
                    acc0,
                ));
            }
            i = i + 1;
        }
        if cur.len() > 0 {
            let ghost before = texts(tokens@);
            tokens.push(cur);
            assert(texts(tokens@) =~= before.push(cur@));
        }
        CubeLine { tokens }
    }
}

/// Value of a decimal digit, if the character is one.
pub open spec fn decimal_digit_value(c: char) -> Option<nat> {
    if '0' <= c && c <= '9' {
        Some((c as u32 - '0' as u32) as nat)
    } else {
        None
    }
}

/// Whether every character is a decimal digit.
pub open spec fn all_decimal_digits(s: Seq<char>) -> bool {
    forall|i: int| 0 <= i < s.len() ==> (#[trigger] decimal_digit_value(s[i])) is Some
}

/// Numeric value of a string of decimal digits, most significant first.
pub open spec fn decimal_value(s: Seq<char>) -> nat
    decreases s.len(),
{
    if s.len() == 0 {
        0
    } else {
        decimal_value(s.drop_last()) * 10 + decimal_digit_value(s.last()).unwrap_or(0)
    }
}

/// What `str::parse::<u32>` returns: an optional `+`, then one or more
/// decimal digits whose value fits in 32 bits.
pub open spec fn parse_u32_spec(s: Seq<char>) -> Option<u32> {
    let digits = if s.len() > 0 && s[0] == '+' {
        s.drop_first()
    } else {
        s
    };
    if digits.len() == 0 || !all_decimal_digits(digits) || decimal_value(digits) > u32::MAX {
        None
    } else {
        Some(decimal_value(digits) as u32)
    }
}

proof fn lemma_decimal_value_grows(a: Seq<char>, b: Seq<char>)
    requires
        all_decimal_digits(a + b),
    ensures
        decimal_value(a) <= decimal_value(a + b),
    decreases b.len(),
{
    if b.len() > 0 {
        let ab = a + b;
        assert(ab.drop_last() =~= a + b.drop_last());
        assert(all_decimal_digits(a + b.drop_last())) by {
            assert forall|i: int| 0 <= i < (a + b.drop_last()).len() implies (#[trigger] decimal_digit_value(
                (a + b.drop_last())[i],
            )) is Some by {
                assert((a + b.drop_last())[i] == ab[i]);
            }
        }
        lemma_decimal_value_grows(a, b.drop_last());
    }
}

/// Parses a token the way `str::parse::<u32>` does.
pub fn parse_decimal_u32(s: &Vec<char>) -> (r: Option<u32>)
    ensures
        r == parse_u32_spec(s@),
{
    let ghost text = s@;
    let start: usize = if s.len() > 0 && s[0] == '+' {
        1
    } else {
        0
    };
    let ghost digits = if text.len() > 0 && text[0] == '+' {
        text.drop_first()
    } else {
        text
    };
    assert(digits =~= text.subrange(start as int, text.len() as int));
    if start == s.len() {
        return None;
    }
    let mut acc: u64 = 0;
    let mut i: usize = start;
    assert(text.subrange(start as int, start as int) =~= Seq::<char>::empty());
    while i < s.len()
        invariant
            start <= i <= s@.len(),
            text == s@,
            digits =~= text.subrange(start as int, text.len() as int),
            digits == (if text.len() > 0 && text[0] == '+' {
                text.drop_first()
            } else {
                text
            }),
            all_decimal_digits(text.subrange(start as int, i as int)),
            acc as nat == decimal_value(text.subrange(start as int, i as int)),
            acc <= u32::MAX,
        decreases s@.len() - i,
    {
        let c = s[i];
        if c < '0' || c > '9' {
            assert(!all_decimal_digits(digits)) by {
                assert(digits[i - start] == c);
                assert(decimal_digit_value(digits[i - start]) is None);
            }
            return None;
        }
        let d: u64 = (c as u32 - '0' as u32) as u64;
        let ghost before = text.subrange(start as int, i as int);
        let ghost after = text.subrange(start as int, i + 1);
        assert(after.drop_last() =~= before);
        assert(all_decimal_digits(after)) by {
            assert forall|k: int| 0 <= k < after.len() implies (#[trigger] decimal_digit_value(
                after[k],
            )) is Some by {
                if k < before.len() {
                    assert(after[k] == before[k]);
                }
            }
        }
        acc = acc * 10 + d;
        i = i + 1;
        if acc > 0xFFFF_FFFF {
            proof {
                let rest = text.subrange(i as int, text.len() as int);
                assert(after + rest =~= digits);
                if all_decimal_digits(digits) {
                    lemma_decimal_value_grows(after, rest);
                }
            }
            return None;
        }
    }
    assert(text.subrange(start as int, i as int) =~= digits);
    Some(acc as u32)
}

/// Whether a token is the given word.
fn token_is(token: &Vec<char>, word: &str) -> (r: bool)
    ensures
        r == (token@ == word@),
{
    let w = chars_of(word);
    if token.len() != w.len() {
        return false;
    }
    let mut i: usize = 0;
    while i < token.len()
        invariant
            i <= token@.len(),
            token@.len() == w@.len(),
            w@ == word@,
            forall|j: int| 0 <= j < i ==> token@[j] == w@[j],
        decreases token@.len() - i,
    {
        if token[i] != w[i] {
            assert(token@[i as int] != word@[i as int]);
            return false;
        }
        i = i + 1;
    }
    assert(token@ =~= word@);
    true
}

/// How one value of a triplet read as a 32-bit float.
#[derive(Debug, Clone, Copy, PartialEq, Eq, Structural)]
pub enum FloatCheck {
    Finite,
    NotFinite,
    Invalid,
}

/// A refusal of a `.cube` file: at a line, of the file as a whole, or of
/// an unsupported kind of LUT.
pub enum CubeFailure {
    AtLine(usize, Seq<char>),
    Whole(Seq<char>),
    Unsupported(Seq<char>),
}

/// Whether `e` reports the refusal `f`.
pub open spec fn failure_matches(e: ConfigError, f: CubeFailure) -> bool {
    match f {
        CubeFailure::AtLine(line, message) => is_parse_error(e, Some(line), message),
        CubeFailure::Whole(message) => is_parse_error(e, None, message),
        CubeFailure::Unsupported(message) => e matches ConfigError::Unsupported(m) && m@ == message,
    }
}

/// What a line of a `.cube` file asks of the caller.
#[derive(Debug, Clone, Copy, PartialEq, Eq, Structural)]
pub enum CubeLineEffect {
    /// Nothing: a blank, comment or title line.
    Skip,
    /// The LUT edge size.
    Size(u32),
    /// The line's three values are the domain minimum.
    DomainMin,
    /// The line's three values are the domain maximum.
    DomainMax,
    /// The line's three values are the next LUT entry.
    Value,
}

/// Reads the structure of a `.cube` file line by line: the size directive,
/// the domain directives and the count of LUT entries. The values
/// themselves are floats and stay with the caller, who reads each line's
/// value tokens and hands in how they parsed.
#[derive(Debug, Clone, Copy, PartialEq, Eq, Structural)]
pub struct CubeParser {
    pub size: Option<u32>,
    pub domain_min_seen: bool,
    pub domain_max_seen: bool,
    pub lut_data_started: bool,
    pub entries: usize,
}

/// The tokens of a line that are float values: the three after a domain
/// directive, every token of a data line, none otherwise.
pub open spec fn value_tokens(toks: Seq<Seq<char>>) -> Seq<Seq<char>> {
    if toks.len() == 0 || toks[0] == "TITLE"@ || toks[0] == "LUT_1D_SIZE"@ || toks[0]
        == "LUT_3D_SIZE"@ {
        Seq::empty()
    } else if toks[0] == "DOMAIN_MIN"@ || toks[0] == "DOMAIN_MAX"@ {
        toks.drop_first()
    } else {
        toks
    }
}

/// The refusal for one value of a triplet, if it did not read as a finite float.
pub open spec fn float_failure(line: usize, directive: Seq<char>, arg: Seq<char>, check: FloatCheck) -> Option<
    CubeFailure,
> {
    match check {
        FloatCheck::Finite => None,
        FloatCheck::Invalid => Some(
            CubeFailure::AtLine(line, directive + " contains an invalid float: "@ + arg),
        ),
        FloatCheck::NotFinite => Some(
            CubeFailure::AtLine(line, directive + " must contain only finite values"@),
        ),
    }
}

/// The refusal for a triplet: not exactly three values, or the first value
/// that is not a finite float.
pub open spec fn triplet_failure(
    line: usize,
    directive: Seq<char>,
    args: Seq<Seq<char>>,
    checks: Seq<FloatCheck>,
) -> Option<CubeFailure> {
    if args.len() != 3 {
        Some(CubeFailure::AtLine(line, directive + " expects exactly 3 values"@))
    } else if float_failure(line, directive, args[0], checks[0]) is Some {
        float_failure(line, directive, args[0], checks[0])
    } else if float_failure(line, directive, args[1], checks[1]) is Some {
        float_failure(line, directive, args[1], checks[1])
    } else {
        float_failure(line, directive, args[2], checks[2])
    }
}

/// The number of entries of a LUT with edge `size`.
pub open spec fn cube_entries(size: u32) -> int {
    size * size * size
}

/// A domain directive at `line`: only before LUT data, only once, with
/// three finite values.
pub open spec fn domain_accept(
    p: CubeParser,
    line: usize,
    directive: Seq<char>,
    is_min: bool,
    toks: Seq<Seq<char>>,
    checks: Seq<FloatCheck>,
) -> Result<(CubeParser, CubeLineEffect), CubeFailure> {
    if p.lut_data_started {
        Err(CubeFailure::AtLine(line, directive + " must appear before LUT data"@))
    } else if (is_min && p.domain_min_seen) || (!is_min && p.domain_max_seen) {
        Err(CubeFailure::AtLine(line, directive + " must appear only once"@))
    } else {
        match triplet_failure(line, directive, toks.drop_first(), checks) {
            Some(f) => Err(f),
            None => if is_min {
                Ok((CubeParser { domain_min_seen: true, ..p }, CubeLineEffect::DomainMin))
            } else {
                Ok((CubeParser { domain_max_seen: true, ..p }, CubeLineEffect::DomainMax))
            },
        }
    }
}

/// What line `line`, with tokens `toks` and value checks `checks`, does to
/// the parser: blank and title lines are skipped, 1D LUTs are unsupported,
/// the size must come once and be a positive integer, domains come before
/// the data, and data needs the size first and may not exceed its entries.
pub open spec fn cube_accept(p: CubeParser, line: usize, toks: Seq<Seq<char>>, checks: Seq<FloatCheck>) -> Result<
    (CubeParser, CubeLineEffect),
    CubeFailure,
> {
    if toks.len() == 0 || toks[0] == "TITLE"@ {
        Ok((p, CubeLineEffect::Skip))
    } else if toks[0] == "LUT_1D_SIZE"@ {
        Err(CubeFailure::Unsupported("1D .cube LUTs are not supported"@))
    } else if toks[0] == "LUT_3D_SIZE"@ {
        if p.size is Some {
            Err(CubeFailure::AtLine(line, "LUT_3D_SIZE must appear only once"@))
        } else if toks.len() != 2 {
            Err(CubeFailure::AtLine(line, "LUT_3D_SIZE expects exactly 1 value"@))
        } else {
            match parse_u32_spec(toks[1]) {
                None => Err(CubeFailure::AtLine(line, "LUT_3D_SIZE must be an unsigned integer"@)),
                Some(n) => if n == 0 {
                    Err(CubeFailure::AtLine(line, "LUT_3D_SIZE must be greater than 0"@))
                } else {
                    Ok((CubeParser { size: Some(n), ..p }, CubeLineEffect::Size(n)))
                },
            }
        }
    } else if toks[0] == "DOMAIN_MIN"@ {
        domain_accept(p, line, "DOMAIN_MIN"@, true, toks, checks)
    } else if toks[0] == "DOMAIN_MAX"@ {
        domain_accept(p, line, "DOMAIN_MAX"@, false, toks, checks)
    } else {
        match p.size {
            None => Err(CubeFailure::AtLine(line, "encountered LUT data before LUT_3D_SIZE"@)),
            Some(n) => if cube_entries(n) > usize::MAX {
                Err(CubeFailure::Whole("LUT_3D_SIZE is too large"@))
            } else {
                match triplet_failure(line, "LUT value"@, toks, checks) {
                    Some(f) => Err(f),
                    None => if p.entries >= cube_entries(n) {
                        Err(
                            CubeFailure::AtLine(
                                line,
                                "too many LUT entries: expected "@ + decimal_digits(
                                    cube_entries(n) as nat,
                                ) + ", found more"@,
                            ),
                        )
                    } else {
                        Ok(
                            (
                                CubeParser {
                                    lut_data_started: true,
                                    entries: (p.entries + 1) as usize,
                                    ..p
                                },
                                CubeLineEffect::Value,
                            ),
                        )
                    },
                }
            },
        }
    }
}

/// The end of the file: the size must have come, and exactly its entries.
pub open spec fn cube_finish(p: CubeParser) -> Result<(u32, usize), CubeFailure> {
    match p.size {
        None => Err(CubeFailure::Whole("missing LUT_3D_SIZE directive"@)),
        Some(n) => if cube_entries(n) > usize::MAX {
            Err(CubeFailure::Whole("LUT_3D_SIZE is too large"@))
        } else if p.entries != cube_entries(n) {
            Err(
                CubeFailure::Whole(
                    "expected "@ + decimal_digits(cube_entries(n) as nat) + " LUT entries for size "@
                        + decimal_digits(n as nat) + ", found "@ + decimal_digits(p.entries as nat),
                ),
            )
        } else {
            Ok((n, p.entries))
        },
    }
}

fn entry_count(size: u32) -> (r: Option<usize>)
    ensures
        match r {
            Some(n) => n == cube_entries(size),
            None => cube_entries(size) > usize::MAX,
        },
{
    let s = size as usize;
    match s.checked_mul(s) {
        None => {
            assert(s * s <= s * s * s) by (nonlinear_arith)
                requires
                    s * s > usize::MAX,
            ;
            None
        },
        Some(square) => match square.checked_mul(s) {
            None => None,
            Some(cube) => Some(cube),
        },
    }
}

fn float_error(line: usize, directive: &str, arg: &Vec<char>, check: FloatCheck) -> (r: Option<
    ConfigError,
>)
    ensures
        match float_failure(line, directive@, arg@, check) {
            None => r is None,
            Some(f) => r matches Some(e) && failure_matches(e, f),
        },
{
    match check {
        FloatCheck::Finite => None,
        FloatCheck::Invalid => {
            let mut out: Vec<char> = Vec::new();
            push_str(&mut out, directive);
            push_str(&mut out, " contains an invalid float: ");
            let ghost start = out@;
            let mut i: usize = 0;
            while i < arg.len()
                invariant
                    i <= arg@.len(),
                    out@ == start + arg@.subrange(0, i as int),
                decreases arg@.len() - i,
            {
                out.push(arg[i]);
                i = i + 1;
                assert(out@ =~= start + arg@.subrange(0, i as int));
            }
            assert(arg@.subrange(0, i as int) =~= arg@);
            assert(out@ =~= directive@ + " contains an invalid float: "@ + arg@);
            Some(ConfigError::parse_at(line, string_from_chars(&out)))
        },
        FloatCheck::NotFinite => {
            let mut out: Vec<char> = Vec::new();
            push_str(&mut out, directive);
            push_str(&mut out, " must contain only finite values");
            Some(ConfigError::parse_at(line, string_from_chars(&out)))
        },
    }
}

fn triplet_error(line: usize, directive: &str, args: &[Vec<char>], checks: &[FloatCheck]) -> (r:
    Option<ConfigError>)
    requires
        checks@.len() == args@.len(),
    ensures
        match triplet_failure(line, directive@, texts(args@), checks@) {
            None => r is None,
            Some(f) => r matches Some(e) && failure_matches(e, f),
        },
{
    let ghost a = texts(args@);
    if args.len() != 3 {
        let mut out: Vec<char> = Vec::new();
        push_str(&mut out, directive);
        push_str(&mut out, " expects exactly 3 values");
        return Some(ConfigError::parse_at(line, string_from_chars(&out)));
    }
    assert(a[0] == args@[0]@ && a[1] == args@[1]@ && a[2] == args@[2]@);
    match float_error(line, directive, &args[0], checks[0]) {
        Some(e) => return Some(e),
        None => {},
    }
    match float_error(line, directive, &args[1], checks[1]) {
        Some(e) => return Some(e),
        None => {},
    }
    float_error(line, directive, &args[2], checks[2])
}


/// The entry count never runs ahead of the size: no entry is taken in before
/// the size directive, and never more than the size's entries.
pub open spec fn entries_within_size(p: CubeParser) -> bool {
    match p.size {
        None => p.entries == 0,
        Some(n) => p.entries <= cube_entries(n),
    }
}

/// Every accepted line keeps the entry count within the size, so a parse
/// that ends without refusal has at most the size's entries and `finish`
/// refuses fewer.
pub proof fn lemma_accept_keeps_entries_within_size(
    p: CubeParser,
    line: usize,
    toks: Seq<Seq<char>>,
    checks: Seq<FloatCheck>,
)
    requires
        entries_within_size(p),
    ensures
        cube_accept(p, line, toks, checks) matches Ok((next, _)) ==> entries_within_size(next),
        cube_accept(p, line, toks, checks) matches Ok((next, CubeLineEffect::Value)) ==> next.entries
            == p.entries + 1 && next.lut_data_started,
        cube_finish(p) is Ok ==> p.size is Some && p.entries == cube_entries(p.size.unwrap()),
{
}

impl CubeParser {
    /// A parser that has read nothing.
    pub fn new() -> (p: CubeParser)
        ensures
            p == (CubeParser {
                size: None,
                domain_min_seen: false,
                domain_max_seen: false,
                lut_data_started: false,
                entries: 0,
            }),
    {
        CubeParser {
            size: None,
            domain_min_seen: false,
            domain_max_seen: false,
            lut_data_started: false,
            entries: 0,
        }
    }

    /// The tokens of `line` that are float values, which the caller parses
    /// and describes to `accept` in order.
    pub fn value_tokens(line: &CubeLine) -> (v: Vec<String>)
        ensures
            v@.map_values(|t: String| t@) == value_tokens(texts(line.tokens@)),
    {
        let ghost toks = texts(line.tokens@);
        let n = line.tokens.len();
        let first: usize = if n == 0 {
            n
        } else if token_is(&line.tokens[0], "TITLE") || token_is(&line.tokens[0], "LUT_1D_SIZE")
            || token_is(&line.tokens[0], "LUT_3D_SIZE") {
            n
        } else if token_is(&line.tokens[0], "DOMAIN_MIN") || token_is(
            &line.tokens[0],
            "DOMAIN_MAX",
        ) {
            1
        } else {
            0
        };
        let mut out: Vec<String> = Vec::new();
        let mut i: usize = first;
        assert(out@.map_values(|t: String| t@) =~= toks.subrange(first as int, first as int));
        while i < n
            invariant
                first <= i <= n,
                n == line.tokens@.len(),
                toks == texts(line.tokens@),
                out@.map_values(|t: String| t@) == toks.subrange(first as int, i as int),
            decreases n - i,
        {
            let ghost before = out@.map_values(|t: String| t@);
            out.push(string_from_chars(&line.tokens[i]));
            assert(out@.map_values(|t: String| t@) =~= before.push(toks[i as int]));
            assert(toks.subrange(first as int, i + 1) =~= toks.subrange(first as int, i as int).push(
                toks[i as int],
            ));
            i = i + 1;
        }
        proof {
            if n == 0 || first == n {
                assert(toks.subrange(first as int, n as int) =~= Seq::<Seq<char>>::empty());
            } else if first == 1 {
                assert(toks.subrange(1, n as int) =~= toks.drop_first());
            } else {
                assert(toks.subrange(0, n as int) =~= toks);
            }
        }
        out
    }

    /// Takes in line `line_no` with the checks of its value tokens; returns
    /// what the line asks of the caller, or the refusal that ends the parse.
    pub fn accept(&mut self, line_no: usize, line: &CubeLine, checks: &[FloatCheck]) -> (r: Result<
        CubeLineEffect,
        ConfigError,
    >)
        requires
            checks@.len() == value_tokens(texts(line.tokens@)).len(),
        ensures
            match cube_accept(*old(self), line_no, texts(line.tokens@), checks@) {
                Ok((next, effect)) => r == Ok::<CubeLineEffect, ConfigError>(effect) && *final(self)
                    == next,
                Err(f) => (r matches Err(e) && failure_matches(e, f)) && *final(self) == *old(self),
            },
    {
        let ghost toks = texts(line.tokens@);
        let tokens = &line.tokens;
        if tokens.len() == 0 {
            return Ok(CubeLineEffect::Skip);
        }
        assert(toks[0] == tokens@[0]@);
        if token_is(&tokens[0], "TITLE") {
            return Ok(CubeLineEffect::Skip);
        }
        if token_is(&tokens[0], "LUT_1D_SIZE") {
            return Err(ConfigError::Unsupported("1D .cube LUTs are not supported"));
        }
        if token_is(&tokens[0], "LUT_3D_SIZE") {
            if self.size.is_some() {
                let mut out: Vec<char> = Vec::new();
                push_str(&mut out, "LUT_3D_SIZE must appear only once");
                return Err(ConfigError::parse_at(line_no, string_from_chars(&out)));
            }
            if tokens.len() != 2 {
                let mut out: Vec<char> = Vec::new();
                push_str(&mut out, "LUT_3D_SIZE expects exactly 1 value");
                return Err(ConfigError::parse_at(line_no, string_from_chars(&out)));
            }
            assert(toks[1] == tokens@[1]@);
            return match parse_decimal_u32(&tokens[1]) {
                None => {
                    let mut out: Vec<char> = Vec::new();
                    push_str(&mut out, "LUT_3D_SIZE must be an unsigned integer");
                    Err(ConfigError::parse_at(line_no, string_from_chars(&out)))
                },
                Some(n) => {
                    if n == 0 {
                        let mut out: Vec<char> = Vec::new();
                        push_str(&mut out, "LUT_3D_SIZE must be greater than 0");
                        Err(ConfigError::parse_at(line_no, string_from_chars(&out)))
                    } else {
                        self.size = Some(n);
                        Ok(CubeLineEffect::Size(n))
                    }
                },
            };
        }
        let is_min = token_is(&tokens[0], "DOMAIN_MIN");
        if is_min || token_is(&tokens[0], "DOMAIN_MAX") {
            let directive = if is_min {
                "DOMAIN_MIN"
            } else {
                "DOMAIN_MAX"
            };
            if self.lut_data_started {
                let mut out: Vec<char> = Vec::new();
                push_str(&mut out, directive);
                push_str(&mut out, " must appear before LUT data");
                return Err(ConfigError::parse_at(line_no, string_from_chars(&out)));
            }
            if (is_min && self.domain_min_seen) || (!is_min && self.domain_max_seen) {
                let mut out: Vec<char> = Vec::new();
                push_str(&mut out, directive);
                push_str(&mut out, " must appear only once");
                return Err(ConfigError::parse_at(line_no, string_from_chars(&out)));
            }
            let args = tokens.as_slice().split_at(1).1;
            assert(texts(args@) =~= toks.drop_first());
            match triplet_error(line_no, directive, args, checks) {
                Some(e) => return Err(e),
                None => {},
            }
            if is_min {
                self.domain_min_seen = true;
                return Ok(CubeLineEffect::DomainMin);
            } else {
                self.domain_max_seen = true;
                return Ok(CubeLineEffect::DomainMax);
            }
        }
        let size = match self.size {
            None => {
                let mut out: Vec<char> = Vec::new();
                push_str(&mut out, "encountered LUT data before LUT_3D_SIZE");
                return Err(ConfigError::parse_at(line_no, string_from_chars(&out)));
            },
            Some(n) => n,
        };
        let expected = match entry_count(size) {
            None => {
                let mut out: Vec<char> = Vec::new();
                push_str(&mut out, "LUT_3D_SIZE is too large");
                return Err(ConfigError::parse_message(string_from_chars(&out)));
            },
            Some(n) => n,
        };
        assert(texts(tokens@) == toks);
        match triplet_error(line_no, "LUT value", tokens.as_slice(), checks) {
            Some(e) => return Err(e),
            None => {},
        }
        if self.entries >= expected {
            let mut out: Vec<char> = Vec::new();
            push_str(&mut out, "too many LUT entries: expected ");
            push_decimal(&mut out, expected as u64);
            push_str(&mut out, ", found more");
            return Err(ConfigError::parse_at(line_no, string_from_chars(&out)));
        }
        self.lut_data_started = true;
        self.entries = self.entries + 1;
        Ok(CubeLineEffect::Value)
    }

    /// The LUT size and entry count once every line was taken in, or the
    /// refusal of the file as a whole.
    pub fn finish(&self) -> (r: Result<(u32, usize), ConfigError>)
        ensures
            match cube_finish(*self) {
                Ok(shape) => r == Ok::<(u32, usize), ConfigError>(shape),
                Err(f) => r matches Err(e) && failure_matches(e, f),
            },
    {
        let size = match self.size {
            None => {
                let mut out: Vec<char> = Vec::new();
                push_str(&mut out, "missing LUT_3D_SIZE directive");
                return Err(ConfigError::parse_message(string_from_chars(&out)));
            },
            Some(n) => n,
        };
        let expected = match entry_count(size) {
            None => {
                let mut out: Vec<char> = Vec::new();
                push_str(&mut out, "LUT_3D_SIZE is too large");
                return Err(ConfigError::parse_message(string_from_chars(&out)));
            },
            Some(n) => n,
        };
        if self.entries != expected {
            let mut out: Vec<char> = Vec::new();
            push_str(&mut out, "expected ");
            push_decimal(&mut out, expected as u64);
            push_str(&mut out, " LUT entries for size ");
            push_decimal(&mut out, size as u64);
            push_str(&mut out, ", found ");
            push_decimal(&mut out, self.entries as u64);
            return Err(ConfigError::parse_message(string_from_chars(&out)));
        }
        Ok((size, self.entries))
    }
}

} // verus!
