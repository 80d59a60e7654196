//! Small verified text utilities: string equality, splitting on a separator,
//! splitting into lines, and decimal integer parsing. These back the
//! hiscores response parser.

use vstd::prelude::*;

verus! {

/// Whether two string slices hold the same characters.
pub fn str_eq(a: &str, b: &str) -> (r: bool)
    ensures
        r == (a@ == b@),
{
    let na = a.unicode_len();
    let nb = b.unicode_len();
    if na != nb {
        return false;
    }
    let mut i: usize = 0;
    while i < na
        invariant
            i <= na,
            na == a@.len(),
            na == b@.len(),
            forall|k: int| 0 <= k < i ==> a@[k] == b@[k],
        decreases na - i,
    {
        if a.get_char(i) != b.get_char(i) {
            return false;
        }
        i = i + 1;
    }
    proof {
        assert(a@ =~= b@);
    }
    true
}

/// Whether the separator occurs anywhere in the sequence.
pub open spec fn has_char(s: Seq<char>, sep: char) -> bool {
    exists|i: int| 0 <= i < s.len() && s[i] == sep
}

/// The pieces of `s` between occurrences of `sep`, in order. There is
/// always one piece more than there are separators; empty pieces are kept.
pub open spec fn spec_split(s: Seq<char>, sep: char) -> Seq<Seq<char>>
    decreases s.len(),
{
    if s.len() == 0 {
        seq![Seq::<char>::empty()]
    } else if s[0] == sep {
        seq![Seq::<char>::empty()] + spec_split(s.drop_first(), sep)
    } else {
        let rest = spec_split(s.drop_first(), sep);
        seq![seq![s[0]] + rest[0]] + rest.drop_first()
    }
}

pub proof fn lemma_split_len(s: Seq<char>, sep: char)
    ensures
        spec_split(s, sep).len() >= 1,
    decreases s.len(),
{
    if s.len() > 0 {
        lemma_split_len(s.drop_first(), sep);
    }
}

/// A separator-free sequence splits into just itself.
pub proof fn lemma_split_whole(s: Seq<char>, sep: char)
    requires
        !has_char(s, sep),
    ensures
        spec_split(s, sep) == seq![s],
    decreases s.len(),
{
    if s.len() == 0 {
        assert(spec_split(s, sep) =~~= seq![s]);
    } else {
        assert(s[0] != sep);
        assert(!has_char(s.drop_first(), sep)) by {
            assert(forall|i: int|
                0 <= i < s.drop_first().len() ==> s.drop_first()[i] == s[i + 1]);
        }
        lemma_split_whole(s.drop_first(), sep);
        assert(seq![s[0]] + s.drop_first() =~= s);
        assert(spec_split(s, sep) =~~= seq![s]);
    }
}

/// Splitting a sequence that starts with a separator-free piece, then a
/// separator, yields that piece followed by the split of the remainder.
pub proof fn lemma_split_step(t: Seq<char>, r: Seq<char>, sep: char)
    requires
        !has_char(t, sep),
    ensures
        spec_split(t + seq![sep] + r, sep) == seq![t] + spec_split(r, sep),
    decreases t.len(),
{
    let s = t + seq![sep] + r;
    if t.len() == 0 {
        assert(s =~= seq![sep] + r);
        assert(s[0] == sep);
        assert(s.drop_first() =~= r);
        assert(spec_split(s, sep) =~~= seq![t] + spec_split(r, sep));
    } else {
        assert(s[0] == t[0]);
        assert(s[0] != sep);
        assert(!has_char(t.drop_first(), sep)) by {
            assert(forall|i: int|
                0 <= i < t.drop_first().len() ==> t.drop_first()[i] == t[i + 1]);
        }
        lemma_split_step(t.drop_first(), r, sep);
        assert(s.drop_first() =~= t.drop_first() + seq![sep] + r);
        let rest = spec_split(s.drop_first(), sep);
        assert(rest == seq![t.drop_first()] + spec_split(r, sep));
        assert(rest[0] == t.drop_first());
        assert(seq![s[0]] + rest[0] =~= t);
        assert(rest.drop_first() =~= spec_split(r, sep));
        assert(spec_split(s, sep) =~~= seq![t] + spec_split(r, sep));
    }
}

/// Splits a string on a separator character, keeping empty pieces.
pub fn split_char(s: &str, sep: char) -> (parts: Vec<String>)
    ensures
        parts@.map_values(|p: String| p@) == spec_split(s@, sep),
        parts@.len() >= 1,
{
    let n = s.unicode_len();
    let mut parts: Vec<String> = Vec::new();
    let mut start: usize = 0;
    let mut i: usize = 0;
    proof {
        assert(s@.subrange(0, n as int) =~= s@);
        assert(parts@.map_values(|p: String| p@) =~~= Seq::<Seq<char>>::empty());
        assert(parts@.map_values(|p: String| p@) + spec_split(s@, sep) =~~= spec_split(s@, sep));
    }
    while i < n
        invariant
            start <= i <= n,
            n == s@.len(),
            forall|k: int| start <= k < i ==> s@[k] != sep,
            spec_split(s@, sep) == parts@.map_values(|p: String| p@) + spec_split(
                s@.subrange(start as int, n as int),
                sep,
            ),
        decreases n - i,
    {
        let c = s.get_char(i);
        if c == sep {
            let piece = s.substring_char(start, i).to_owned();
            parts.push(piece);
            proof {
                let t = s@.subrange(start as int, i as int);
                let r = s@.subrange(i + 1, n as int);
                assert(!has_char(t, sep));
                lemma_split_step(t, r, sep);
                assert(s@.subrange(start as int, n as int) =~= t + seq![sep] + r);
                assert(parts@.map_values(|p: String| p@) =~~= parts@.drop_last().map_values(
                    |p: String| p@,
                ) + seq![t]);
            }
            start = i + 1;
        }
        i = i + 1;
    }
    let piece = s.substring_char(start, n).to_owned();
    parts.push(piece);
    proof {
        let t = s@.subrange(start as int, n as int);
        assert(!has_char(t, sep));
        lemma_split_whole(t, sep);
        assert(parts@.map_values(|p: String| p@) =~~= parts@.drop_last().map_values(
            |p: String| p@,
        ) + seq![t]);
        assert(parts@.map_values(|p: String| p@) =~~= spec_split(s@, sep));
        lemma_split_len(s@, sep);
    }
    parts
}

/// Removes one trailing carriage return, if present.
pub open spec fn strip_cr(line: Seq<char>) -> Seq<char> {
    if line.len() > 0 && line.last() == '\r' {
        line.drop_last()
    } else {
        line
    }
}

/// The lines of a text: pieces between newline characters, with one
/// carriage return stripped before each newline, and with no empty final
/// line when the text ends in a newline (or is empty).
pub open spec fn spec_lines(s: Seq<char>) -> Seq<Seq<char>> {
    let parts = spec_split(s, '\n');
    let m = if s.len() == 0 || s.last() == '\n' {
        parts.len() - 1
    } else {
        parts.len() as int
    };
    Seq::new(
        m as nat,
        |i: int|
            if i < parts.len() - 1 {
                strip_cr(parts[i])
            } else {
                parts[i]
            },
    )
}

/// Splits a text into lines (see `spec_lines`).
pub fn split_lines(s: &str) -> (lines: Vec<String>)
    ensures
        lines@.map_values(|p: String| p@) == spec_lines(s@),
{
    let n = s.unicode_len();
    let mut parts = split_char(s, '\n');
    let ghost all_parts = spec_split(s@, '\n');
    proof {
        lemma_split_len(s@, '\n');
        assert(forall|k: int|
            0 <= k < parts@.len() ==> #[trigger] parts@[k]@ == parts@.map_values(|p: String| p@)[k]);
    }
    let ends_with_newline = n == 0 || s.get_char(n - 1) == '\n';
    if ends_with_newline {
        parts.pop();
        proof {
            assert(forall|k: int|
                0 <= k < parts@.len() ==> #[trigger] parts@[k]@ == all_parts[k]);
        }
    }
    // Pieces that were followed by a newline get a trailing carriage
    // return stripped; only a final piece not followed by one is kept as is.
    let stripped_count: usize = if ends_with_newline {
        parts.len()
    } else {
        parts.len() - 1
    };
    let mut lines: Vec<String> = Vec::new();
    let mut i: usize = 0;
    while i < parts.len()
        invariant
            i <= parts.len(),
            parts@.len() == spec_lines(s@).len(),
            stripped_count == if ends_with_newline {
                parts@.len() as int
            } else {
                parts@.len() - 1
            },
            ends_with_newline == (s@.len() == 0 || s@.last() == '\n'),
            all_parts == spec_split(s@, '\n'),
            forall|k: int| 0 <= k < parts@.len() ==> parts@[k]@ == all_parts[k],
            lines@.len() == i,
            forall|k: int| 0 <= k < i ==> lines@[k]@ == spec_lines(s@)[k],
        decreases parts.len() - i,
    {
        let part: &String = &parts[i];
        let part_len = part.as_str().unicode_len();
        if i < stripped_count && part_len > 0 && part.as_str().get_char(part_len - 1) == '\r' {
            let stripped = part.as_str().substring_char(0, part_len - 1).to_owned();
            proof {
                assert(stripped@ =~= strip_cr(parts@[i as int]@));
            }
            lines.push(stripped);
        } else {
            proof {
                assert(parts@[i as int]@ =~= strip_cr(parts@[i as int]@) || i >= stripped_count);
            }
            lines.push(part.clone());
        }
        i = i + 1;
    }
    proof {
        assert(lines@.map_values(|p: String| p@) =~~= spec_lines(s@));
    }
    lines
}

/// Whether a character is a decimal digit.
pub open spec fn is_digit_char(c: char) -> bool {
    '0' <= c && c <= '9'
}

/// The numeric value of a decimal digit character.
pub open spec fn digit_char_val(c: char) -> int {
    c as int - '0' as int
}

/// Whether every character of the sequence is a decimal digit.
pub open spec fn all_digits(s: Seq<char>) -> bool {
    forall|i: int| 0 <= i < s.len() ==> is_digit_char(s[i])
}

/// The value of a sequence of decimal digits, most significant first.
pub open spec fn digits_val(s: Seq<char>) -> int
    decreases s.len(),
{
    if s.len() == 0 {
        0
    } else {
        10 * digits_val(s.drop_last()) + digit_char_val(s.last())
    }
}

/// The digit portion of an integer literal: everything after one optional
/// leading sign.
pub open spec fn int_digits(s: Seq<char>) -> Seq<char> {
    if s.len() > 0 && (s[0] == '-' || s[0] == '+') {
        s.drop_first()
    } else {
        s
    }
}

/// Whether the sequence is a decimal integer literal: an optional sign
/// followed by one or more digits and nothing else.
pub open spec fn is_int_literal(s: Seq<char>) -> bool {
    int_digits(s).len() > 0 && all_digits(int_digits(s))
}

/// The mathematical value of a decimal integer literal.
pub open spec fn int_literal_val(s: Seq<char>) -> int {
    if s.len() > 0 && s[0] == '-' {
        -digits_val(int_digits(s))
    } else {
        digits_val(int_digits(s))
    }
}

/// What parsing a 32-bit integer returns: the literal's value when the text
/// is a well-formed literal whose value is representable, nothing otherwise.
pub open spec fn parse_i32_spec(s: Seq<char>) -> Option<i32> {
    if is_int_literal(s) && i32::MIN <= int_literal_val(s) <= i32::MAX {
        Some(int_literal_val(s) as i32)
    } else {
        None
    }
}

/// A sequence of digits has a non-negative value.
proof fn lemma_digits_val_nonneg(s: Seq<char>)
    requires
        all_digits(s),
    ensures
        digits_val(s) >= 0,
    decreases s.len(),
{
    if s.len() > 0 {
        assert(all_digits(s.drop_last()));
        lemma_digits_val_nonneg(s.drop_last());
    }
}

/// Appending a digit multiplies the value by ten and adds the digit.
proof fn lemma_digits_val_push(s: Seq<char>, c: char)
    ensures
        digits_val(s.push(c)) == 10 * digits_val(s) + digit_char_val(c),
{
    assert(s.push(c).drop_last() =~= s);
    assert(s.push(c).last() == c);
}

/// Parses a decimal 32-bit integer, as `parse_i32_spec` describes: an
/// optional sign, then only digits, rejecting values out of range.
pub fn parse_i32(s: &str) -> (r: Option<i32>)
    ensures
        r == parse_i32_spec(s@),
{
    let n = s.unicode_len();
    let mut start: usize = 0;
    let mut negative = false;
    if n > 0 {
        let c0 = s.get_char(0);
        if c0 == '-' {
            negative = true;
            start = 1;
        } else if c0 == '+' {
            start = 1;
        }
    }
    proof {
        if start == 1 {
            assert(int_digits(s@) =~= s@.subrange(1, n as int));
        } else {
            assert(int_digits(s@) =~= s@.subrange(0, n as int));
        }
    }
    if start >= n {
        // No digits at all.
        return None;
    }
    let ghost digits = int_digits(s@);
    let mut acc: i64 = 0;
    let mut over = false;
    let mut i: usize = start;
    while i < n
        invariant
            start <= i <= n,
            n == s@.len(),
            start <= 1,
            digits == int_digits(s@),
            digits =~= s@.subrange(start as int, n as int),
            all_digits(s@.subrange(start as int, i as int)),
            !over ==> acc == digits_val(s@.subrange(start as int, i as int)) && 0 <= acc
                <= 2147483648,
            over ==> digits_val(s@.subrange(start as int, i as int)) > 2147483648,
        decreases n - i,
    {
        let c = s.get_char(i);
        if c < '0' || c > '9' {
            // A non-digit character: not an integer literal.
            proof {
                assert(!is_digit_char(digits[i - start]));
            }
            return None;
        }
        let ghost prefix = s@.subrange(start as int, i as int);
        proof {
            lemma_digits_val_push(prefix, c);
            assert(s@.subrange(start as int, i + 1) =~= prefix.push(c));
            lemma_digits_val_nonneg(prefix);
        }
        if !over {
            let d = (c as u32 - 48) as i64;
            acc = acc * 10 + d;
            if acc > 2147483648 {
                over = true;
            }
        }
        i = i + 1;
    }
    proof {
        assert(s@.subrange(start as int, i as int) =~= digits);
    }
    if over {
        // The magnitude exceeds every 32-bit value, for either sign.
        return None;
    }
    if negative {
        proof {
            assert(s@[0] == '-');
        }
        Some((-acc) as i32)
    } else {
        if acc > 2147483647 {
            proof {
                assert(!(s@.len() > 0 && s@[0] == '-'));
            }
            None
        } else {
            proof {
                assert(!(s@.len() > 0 && s@[0] == '-'));
            }
            Some(acc as i32)
        }
    }
}

} // verus!
