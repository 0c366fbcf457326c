//! Colours given as six hexadecimal digits, and the four zone colours.
use vstd::prelude::*;
use vstd::std_specs::iter::IteratorSpec;

verus! {

/// Why a hexadecimal colour could not be read.
#[derive(Clone, Copy, Debug, PartialEq, Eq, Structural)]
pub enum ColorError {
    /// A character that is not a hexadecimal digit.
    InvalidCharacter,
    /// The input ended before six digits were read.
    TooShort,
    /// The argument was not valid Unicode.
    NotUnicode,
}

/// The value of `c` read as a hexadecimal digit, if it is one.
pub open spec fn hex_value(c: char) -> Option<u32> {
    if '0' <= c && c <= '9' {
        Some((c as u32 - '0' as u32) as u32)
    } else if 'a' <= c && c <= 'f' {
        Some((c as u32 - 'a' as u32 + 10) as u32)
    } else if 'A' <= c && c <= 'F' {
        Some((c as u32 - 'A' as u32 + 10) as u32)
    } else {
        None
    }
}

/// Reads `c` as a hexadecimal digit, in either case.
fn hex_digit(c: char) -> (r: Option<u32>)
    ensures
        r == hex_value(c),
{
    if '0' <= c && c <= '9' {
        Some(c as u32 - '0' as u32)
    } else if 'a' <= c && c <= 'f' {
        Some(c as u32 - 'a' as u32 + 10)
    } else if 'A' <= c && c <= 'F' {
        Some(c as u32 - 'A' as u32 + 10)
    } else {
        None
    }
}

/// What reading one digit from `rest`, the characters still to come, gives.
pub open spec fn digit_of(rest: Seq<char>) -> Result<u32, ColorError> {
    if rest.len() == 0 {
        Err(ColorError::TooShort)
    } else {
        match hex_value(rest[0]) {
            Some(v) => Ok(v),
            None => Err(ColorError::InvalidCharacter),
        }
    }
}

/// Takes the next character of `code` and reads it as a hexadecimal digit.
///
/// The character is taken even when it is not a digit; nothing is taken
/// when `code` is exhausted.
pub fn consume(code: &mut std::str::Chars) -> (r: Result<u32, ColorError>)
    ensures
        r == digit_of((*old(code)).remaining()),
        (*old(code)).remaining().len() > 0 ==> (*final(code)).remaining() == (*old(
            code,
        )).remaining().drop_first(),
        (*old(code)).remaining().len() == 0 ==> (*final(code)).remaining() == (*old(
            code,
        )).remaining(),
        r is Ok ==> r->Ok_0 < 16,
{
    match code.next() {
        Some(x) => match hex_digit(x) {
            Some(v) => Ok(v),
            None => Err(ColorError::InvalidCharacter),
        },
        None => Err(ColorError::TooShort),
    }
}

/// What reading the digit at position `k` of `s` gives.
pub open spec fn digit_at(s: Seq<char>, k: int) -> Result<u32, ColorError> {
    if k < s.len() {
        match hex_value(s[k]) {
            Some(v) => Ok(v),
            None => Err(ColorError::InvalidCharacter),
        }
    } else {
        Err(ColorError::TooShort)
    }
}

/// The byte written by the two digits at positions `k` and `k + 1` of `s`.
pub open spec fn byte_at(s: Seq<char>, k: int) -> u8 {
    (digit_at(s, k)->Ok_0 * 16 + digit_at(s, k + 1)->Ok_0) as u8
}

/// The colour that the hexadecimal triplet `s` writes.
///
/// The six digits are read in order and the first that is missing or not a
/// digit decides the error; characters after the sixth are not read.
pub open spec fn hex_triplet(s: Seq<char>) -> Result<(u8, u8, u8), ColorError> {
    if digit_at(s, 0) is Err {
        Err(digit_at(s, 0)->Err_0)
    } else if digit_at(s, 1) is Err {
        Err(digit_at(s, 1)->Err_0)
    } else if digit_at(s, 2) is Err {
        Err(digit_at(s, 2)->Err_0)
    } else if digit_at(s, 3) is Err {
        Err(digit_at(s, 3)->Err_0)
    } else if digit_at(s, 4) is Err {
        Err(digit_at(s, 4)->Err_0)
    } else if digit_at(s, 5) is Err {
        Err(digit_at(s, 5)->Err_0)
    } else {
        Ok((byte_at(s, 0), byte_at(s, 2), byte_at(s, 4)))
    }
}

proof fn lemma_digit_of_skip(s: Seq<char>, k: int)
    requires
        0 <= k <= s.len(),
    ensures
        digit_of(s.skip(k)) == digit_at(s, k),
        k < s.len() ==> s.skip(k).drop_first() == s.skip(k + 1),
{
    if k < s.len() {
        assert(s.skip(k)[0] == s[k]);
        assert(s.skip(k).drop_first() =~= s.skip(k + 1));
    }
}

/// Reads a colour written as six hexadecimal digits, such as `ff00ed`.
pub fn from_hex(code: &str) -> (r: Result<(u8, u8, u8), ColorError>)
    ensures
        r == hex_triplet(code@),
{
    let ghost s = code@;
    let mut chars = code.chars();
    assert(s.skip(0) =~= s);
    proof { lemma_digit_of_skip(s, 0); }
    let red1 = match consume(&mut chars) {
        Ok(v) => v,
        Err(e) => return Err(e),
    };
    proof { lemma_digit_of_skip(s, 0); lemma_digit_of_skip(s, 1); }
    let red2 = match consume(&mut chars) {
        Ok(v) => v,
        Err(e) => return Err(e),
    };
    proof { lemma_digit_of_skip(s, 1); lemma_digit_of_skip(s, 2); }
    let green1 = match consume(&mut chars) {
        Ok(v) => v,
        Err(e) => return Err(e),
    };
    proof { lemma_digit_of_skip(s, 2); lemma_digit_of_skip(s, 3); }
    let green2 = match consume(&mut chars) {
        Ok(v) => v,
        Err(e) => return Err(e),
    };
    proof { lemma_digit_of_skip(s, 3); lemma_digit_of_skip(s, 4); }
    let blue1 = match consume(&mut chars) {
        Ok(v) => v,
        Err(e) => return Err(e),
    };
    proof { lemma_digit_of_skip(s, 4); lemma_digit_of_skip(s, 5); }
    let blue2 = match consume(&mut chars) {
        Ok(v) => v,
        Err(e) => return Err(e),
    };
    Ok(((red1 * 16 + red2) as u8, (green1 * 16 + green2) as u8, (blue1 * 16 + blue2) as u8))
}

/// Black, the colour of a zone that no colour was given for.
pub open spec fn black() -> (u8, u8, u8) {
    (0u8, 0u8, 0u8)
}

/// What one colour argument gives; `None` stands for an argument that is
/// not valid Unicode.
pub open spec fn color_arg(a: Option<String>) -> Result<(u8, u8, u8), ColorError> {
    match a {
        Some(s) => hex_triplet(s@),
        None => Err(ColorError::NotUnicode),
    }
}

/// The colours that `args` give, read in order: the first argument that
/// fails decides the error.
pub open spec fn parsed_colors(args: Seq<Option<String>>) -> Result<
    Seq<(u8, u8, u8)>,
    ColorError,
>
    decreases args.len(),
{
    if args.len() == 0 {
        Ok(Seq::empty())
    } else {
        match parsed_colors(args.drop_last()) {
            Err(e) => Err(e),
            Ok(cs) => match color_arg(args.last()) {
                Err(e) => Err(e),
                Ok(c) => Ok(cs.push(c)),
            },
        }
    }
}

/// Four black zones.
pub open spec fn all_black() -> Seq<(u8, u8, u8)> {
    seq![black(), black(), black(), black()]
}

/// `cs` brought to four zones: no colour gives four black zones, fewer than
/// four are followed by copies of the last, and more are kept as they are.
pub open spec fn padded(cs: Seq<(u8, u8, u8)>) -> Seq<(u8, u8, u8)> {
    if cs.len() == 0 {
        all_black()
    } else if cs.len() >= 4 {
        cs
    } else {
        cs + Seq::new((4 - cs.len()) as nat, |i: int| cs.last())
    }
}

/// Reads each argument as a hexadecimal colour, in order, and stops at the
/// first that fails. With no argument at all the four zones are black.
pub fn parse_colors(args: Vec<Option<String>>) -> (r: Result<Vec<(u8, u8, u8)>, ColorError>)
    ensures
        match parsed_colors(args@) {
            Err(e) => r == Err::<Vec<(u8, u8, u8)>, ColorError>(e),
            Ok(cs) => r is Ok && r->Ok_0@ == (if cs.len() == 0 {
                all_black()
            } else {
                cs
            }),
        },
{
    let mut colors: Vec<(u8, u8, u8)> = Vec::new();
    let mut i: usize = 0;
    while i < args.len()
        invariant
            i <= args.len(),
            parsed_colors(args@.take(i as int)) == Ok::<Seq<(u8, u8, u8)>, ColorError>(colors@),
        decreases args.len() - i,
    {
        assert(args@.take(i as int + 1).drop_last() =~= args@.take(i as int));
        let color = match &args[i] {
            Some(code) => from_hex(code.as_str()),
            None => Err(ColorError::NotUnicode),
        };
        match color {
            Ok(c) => colors.push(c),
            Err(e) => {
                proof { lemma_parsed_colors_err(args@, i as int + 1); }
                return Err(e);
            },
        }
        i = i + 1;
    }
    assert(args@.take(i as int) =~= args@);
    if colors.len() == 0 {
        Ok(vec![(0u8, 0u8, 0u8), (0u8, 0u8, 0u8), (0u8, 0u8, 0u8), (0u8, 0u8, 0u8)])
    } else {
        Ok(colors)
    }
}

/// Once a prefix of the arguments fails, the whole list fails the same way.
proof fn lemma_parsed_colors_err(args: Seq<Option<String>>, n: int)
    requires
        0 <= n <= args.len(),
        parsed_colors(args.take(n)) is Err,
    ensures
        parsed_colors(args) == parsed_colors(args.take(n)),
    decreases args.len() - n,
{
    if n < args.len() {
        assert(args.take(n + 1).drop_last() =~= args.take(n));
        lemma_parsed_colors_err(args, n + 1);
    } else {
        assert(args.take(n) =~= args);
    }
}

/// Brings `colors` to four zones, repeating the last colour; with no colour
/// at all the four zones are black. A longer list is left as it is.
pub fn pad_colors(colors: &mut Vec<(u8, u8, u8)>)
    ensures
        final(colors)@ == padded(old(colors)@),
{
    if colors.len() == 0 {
        colors.push((0u8, 0u8, 0u8));
    }
    let ghost first = colors@;
    while colors.len() < 4
        invariant
            first.len() > 0,
            first.len() <= colors@.len(),
            colors@.len() <= 4 || colors@ == first,
            colors@.subrange(0, first.len() as int) == first,
            forall|j: int| first.len() <= j < colors@.len() ==> colors@[j] == first.last(),
            colors@.last() == first.last(),
        decreases 4 - colors@.len(),
    {
        let last = colors[colors.len() - 1];
        colors.push(last);
    }
    assert(colors@ =~= padded(old(colors)@));
}

} // verus!
