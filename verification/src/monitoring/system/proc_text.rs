//! Reading the text of kernel status files: splitting into lines and
//! whitespace-separated words, and reading unsigned decimal numbers, with
//! the meaning of each stated over character sequences.

use vstd::prelude::*;

verus! {

/// Whitespace as `char::is_whitespace` has it: the Unicode `White_Space`
/// characters.
pub open spec fn is_ws(c: char) -> bool {
    let n = c as u32;
    ||| 9 <= n <= 13
    ||| n == 32
    ||| n == 0x85
    ||| n == 0xA0
    ||| n == 0x1680
    ||| 0x2000 <= n <= 0x200A
    ||| n == 0x2028
    ||| n == 0x2029
    ||| n == 0x202F
    ||| n == 0x205F
    ||| n == 0x3000
}

/// Whether `c` is whitespace.
pub fn is_whitespace_char(c: char) -> (r: bool)
    ensures
        r == is_ws(c),
{
    let n = c as u32;
    (9 <= n && n <= 13) || n == 32 || n == 0x85 || n == 0xA0 || n == 0x1680 || (0x2000 <= n && n <= 0x200A)
        || n == 0x2028 || n == 0x2029 || n == 0x202F || n == 0x205F || n == 0x3000
}

/// A line without the carriage return that ended it.
pub open spec fn strip_cr(l: Seq<char>) -> Seq<char> {
    if l.len() > 0 && l.last() == '\r' {
        l.drop_last()
    } else {
        l
    }
}

/// The lines of `s` after a line begun with `cur`: a line ends at each
/// newline, losing a carriage return before it; a last line without a
/// newline counts when it is not empty.
pub open spec fn lines_from(s: Seq<char>, cur: Seq<char>) -> Seq<Seq<char>>
    decreases s.len(),
{
    if s.len() == 0 {
        if cur.len() > 0 { seq![cur] } else { Seq::empty() }
    } else if s[0] == '\n' {
        seq![strip_cr(cur)] + lines_from(s.drop_first(), Seq::empty())
    } else {
        lines_from(s.drop_first(), cur.push(s[0]))
    }
}

/// The lines of `s`, as `str::lines` gives them.
pub open spec fn lines(s: Seq<char>) -> Seq<Seq<char>> {
    lines_from(s, Seq::empty())
}

/// The words of `s` after a word begun with `cur`: the maximal runs of
/// characters other than whitespace.
pub open spec fn words_from(s: Seq<char>, cur: Seq<char>) -> Seq<Seq<char>>
    decreases s.len(),
{
    if s.len() == 0 {
        if cur.len() > 0 { seq![cur] } else { Seq::empty() }
    } else if is_ws(s[0]) {
        (if cur.len() > 0 { seq![cur] } else { Seq::empty() }) + words_from(s.drop_first(), Seq::empty())
    } else {
        words_from(s.drop_first(), cur.push(s[0]))
    }
}

/// The words of `s`, as `str::split_whitespace` gives them.
pub open spec fn words(s: Seq<char>) -> Seq<Seq<char>> {
    words_from(s, Seq::empty())
}

/// The character sequences of a vector of character vectors.
pub open spec fn texts(v: Seq<Vec<char>>) -> Seq<Seq<char>> {
    v.map_values(|x: Vec<char>| x@)
}

/// `s` begins with `p`.
pub open spec fn starts_with(s: Seq<char>, p: Seq<char>) -> bool {
    p.len() <= s.len() && s.subrange(0, p.len() as int) == p
}

proof fn lemma_texts_push(v: Seq<Vec<char>>, x: Vec<char>)
    ensures
        texts(v.push(x)) == texts(v).push(x@),
{
    assert(texts(v.push(x)) =~= texts(v).push(x@));
}

/// Splits a character sequence into its lines.
pub fn split_lines(cs: &Vec<char>) -> (r: Vec<Vec<char>>)
    ensures
        texts(r@) == lines(cs@),
{
    let mut out: Vec<Vec<char>> = Vec::new();
    let mut cur: Vec<char> = Vec::new();
    let mut i: usize = 0;
    assert(texts(out@) =~= Seq::<Seq<char>>::empty());
    assert(cs@.skip(0) =~= cs@);
    while i < cs.len()
        invariant
            i <= cs@.len(),
            texts(out@) + lines_from(cs@.skip(i as int), cur@) == lines(cs@),
        decreases cs@.len() - i,
    {
        let c = cs[i];
        let ghost rest = cs@.skip(i as int);
        proof {
            assert(rest.drop_first() =~= cs@.skip(i + 1));
            assert(rest[0] == c);
        }
        if c == '\n' {
            let ghost before = texts(out@);
            let ghost line = strip_cr(cur@);
            let mut l = cur;
            if l.len() > 0 && l[l.len() - 1] == '\r' {
                l.pop();
            }
            assert(l@ == line) by {
                if cur@.len() > 0 && cur@.last() == '\r' {
                    assert(l@ =~= cur@.drop_last());
                }
            }
            out.push(l);
            cur = Vec::new();
            proof {
                lemma_texts_push(out@.drop_last(), out@.last());
                assert(out@.drop_last() =~= old_out_shape(out@));
                assert(texts(out@) == before.push(line));
                assert(before.push(line) + lines_from(cs@.skip(i + 1), cur@) =~= before + (seq![line]
                    + lines_from(cs@.skip(i + 1), Seq::empty())));
            }
        } else {
            cur.push(c);
        }
        i = i + 1;
    }
    let ghost before = texts(out@);
    if cur.len() > 0 {
        out.push(cur);
        proof {
            lemma_texts_push(out@.drop_last(), out@.last());
            assert(out@.drop_last() =~= old_out_shape(out@));
        }
    }
    proof {
        assert(cs@.skip(i as int) =~= Seq::<char>::empty());
    }
    out
}

spec fn old_out_shape(v: Seq<Vec<char>>) -> Seq<Vec<char>> {
    v.drop_last()
}

/// Splits a character sequence into its whitespace-separated words.
pub fn split_words(cs: &Vec<char>) -> (r: Vec<Vec<char>>)
    ensures
        texts(r@) == words(cs@),
{
    let mut out: Vec<Vec<char>> = Vec::new();
    let mut cur: Vec<char> = Vec::new();
    let mut i: usize = 0;
    assert(texts(out@) =~= Seq::<Seq<char>>::empty());
    assert(cs@.skip(0) =~= cs@);
    while i < cs.len()
        invariant
            i <= cs@.len(),
            texts(out@) + words_from(cs@.skip(i as int), cur@) == words(cs@),
        decreases cs@.len() - i,
    {
        let c = cs[i];
        let ghost rest = cs@.skip(i as int);
        proof {
            assert(rest.drop_first() =~= cs@.skip(i + 1));
            assert(rest[0] == c);
        }
        if is_whitespace_char(c) {
            let ghost before = texts(out@);
            let ghost word = cur@;
            proof {
                assert(is_ws(rest[0]));
                assert(words_from(rest, word) == (if word.len() > 0 { seq![word] } else { Seq::<Seq<char>>::empty() })
                    + words_from(rest.drop_first(), Seq::<char>::empty()));
            }
            if cur.len() > 0 {
                out.push(cur);
                cur = Vec::new();
                proof {
                    lemma_texts_push(out@.drop_last(), out@.last());
                    assert(out@.drop_last() =~= old_out_shape(out@));
                    assert(texts(out@) == before.push(word));
                    assert(before.push(word) + words_from(cs@.skip(i + 1), cur@) =~= before + (seq![word]
                        + words_from(cs@.skip(i + 1), Seq::empty())));
                }
            } else {
                proof {
                    assert(word =~= Seq::<char>::empty());
                    assert(Seq::<Seq<char>>::empty() + words_from(cs@.skip(i + 1), Seq::empty()) =~= words_from(
                        cs@.skip(i + 1),
                        Seq::empty(),
                    ));
                }
            }
        } else {
            let ghost before_cur = cur@;
            cur.push(c);
            proof {
                assert(!is_ws(rest[0]));
                assert(words_from(rest, before_cur) == words_from(rest.drop_first(), before_cur.push(rest[0])));
                assert(cur@ == before_cur.push(c));
            }
        }
        assert(texts(out@) + words_from(cs@.skip(i + 1), cur@) == words(cs@));
        i = i + 1;
    }
    if cur.len() > 0 {
        out.push(cur);
        proof {
            lemma_texts_push(out@.drop_last(), out@.last());
            assert(out@.drop_last() =~= old_out_shape(out@));
        }
    }
    proof {
        assert(cs@.skip(i as int) =~= Seq::<char>::empty());
    }
    out
}

/// Why a decimal number could not be read, as `core::num::IntErrorKind`
/// names the three cases of an unsigned number.
#[derive(Debug, Clone, Copy, PartialEq, Eq, Structural)]
pub enum IntErrorKind {
    Empty,
    InvalidDigit,
    PosOverflow,
}

/// The message of each kind, as `ParseIntError` displays it.
pub open spec fn int_error_text(k: IntErrorKind) -> Seq<char> {
    match k {
        IntErrorKind::Empty => "cannot parse integer from empty string"@,
        IntErrorKind::InvalidDigit => "invalid digit found in string"@,
        IntErrorKind::PosOverflow => "number too large to fit in target type"@,
    }
}

/// The message of an error kind.
pub fn int_error_message(k: IntErrorKind) -> (s: &'static str)
    ensures
        s@ == int_error_text(k),
{
    match k {
        IntErrorKind::Empty => "cannot parse integer from empty string",
        IntErrorKind::InvalidDigit => "invalid digit found in string",
        IntErrorKind::PosOverflow => "number too large to fit in target type",
    }
}

/// A decimal digit character.
pub open spec fn is_digit(c: char) -> bool {
    48 <= (c as u32) <= 57
}

/// The value of a decimal digit character.
pub open spec fn digit_of(c: char) -> nat {
    ((c as u32) - 48) as nat
}

/// Reading the digits of `s` after the value `acc` was read: the first
/// character that is no digit is an invalid digit; a value above `max` is an
/// overflow, found at the digit that passes it.
pub open spec fn digits_from(s: Seq<char>, acc: nat, max: nat) -> Result<nat, IntErrorKind>
    decreases s.len(),
{
    if s.len() == 0 {
        Ok(acc)
    } else if !is_digit(s[0]) {
        Err(IntErrorKind::InvalidDigit)
    } else if acc * 10 + digit_of(s[0]) > max {
        Err(IntErrorKind::PosOverflow)
    } else {
        digits_from(s.drop_first(), acc * 10 + digit_of(s[0]), max)
    }
}

/// An unsigned decimal number no larger than `max`, read as `from_str`
/// reads one: an optional `+`, then digits only.
pub open spec fn parse_uint(s: Seq<char>, max: nat) -> Result<nat, IntErrorKind> {
    if s.len() == 0 {
        Err(IntErrorKind::Empty)
    } else if s.len() == 1 && (s[0] == '+' || s[0] == '-') {
        Err(IntErrorKind::InvalidDigit)
    } else if s[0] == '+' {
        digits_from(s.drop_first(), 0, max)
    } else {
        digits_from(s, 0, max)
    }
}

proof fn lemma_digits_bounded(s: Seq<char>, acc: nat, max: nat)
    requires
        acc <= max,
    ensures
        digits_from(s, acc, max) matches Ok(v) ==> v <= max,
    decreases s.len(),
{
    if s.len() > 0 && is_digit(s[0]) && acc * 10 + digit_of(s[0]) <= max {
        lemma_digits_bounded(s.drop_first(), acc * 10 + digit_of(s[0]), max);
    }
}

/// Reads the unsigned decimal number no larger than `max` that `t` holds.
pub fn parse_uint_chars(t: &Vec<char>, max: u64) -> (r: Result<u64, IntErrorKind>)
    ensures
        match parse_uint(t@, max as nat) {
            Ok(v) => r == Ok::<u64, IntErrorKind>(v as u64),
            Err(e) => r == Err::<u64, IntErrorKind>(e),
        },
        r matches Ok(v) ==> v <= max,
        parse_uint(t@, max as nat) matches Ok(v) ==> v <= max,
{
    if t.len() == 0 {
        return Err(IntErrorKind::Empty);
    }
    if t.len() == 1 && (t[0] == '+' || t[0] == '-') {
        return Err(IntErrorKind::InvalidDigit);
    }
    let start: usize = if t[0] == '+' { 1 } else { 0 };
    let ghost digits = if t@[0] == '+' { t@.drop_first() } else { t@ };
    assert(t@.skip(start as int) =~= digits);
    assert(parse_uint(t@, max as nat) == digits_from(digits, 0, max as nat));
    proof {
        lemma_digits_bounded(digits, 0, max as nat);
    }
    let mut acc: u64 = 0;
    let mut i: usize = start;
    while i < t.len()
        invariant
            start <= i <= t@.len(),
            acc <= max,
            parse_uint(t@, max as nat) == digits_from(digits, 0, max as nat),
            parse_uint(t@, max as nat) matches Ok(v) ==> v <= max,
            digits_from(t@.skip(i as int), acc as nat, max as nat) == digits_from(digits, 0, max as nat),
        decreases t@.len() - i,
    {
        let c = t[i];
        let ghost rest = t@.skip(i as int);
        proof {
            assert(rest[0] == c);
            assert(rest.drop_first() =~= t@.skip(i + 1));
        }
        let n = c as u32;
        if n < 48 || n > 57 {
            assert(!is_digit(rest[0]));
            assert(digits_from(rest, acc as nat, max as nat) == Err::<nat, IntErrorKind>(IntErrorKind::InvalidDigit));
            return Err(IntErrorKind::InvalidDigit);
        }
        let d: u64 = (n - 48) as u64;
        assert(d == digit_of(rest[0]));
        let next: u128 = (acc as u128) * 10 + (d as u128);
        if next > max as u128 {
            assert(digits_from(rest, acc as nat, max as nat) == Err::<nat, IntErrorKind>(IntErrorKind::PosOverflow));
            return Err(IntErrorKind::PosOverflow);
        }
        acc = next as u64;
        i = i + 1;
    }
    proof {
        assert(t@.skip(i as int) =~= Seq::<char>::empty());
        lemma_digits_bounded(digits, 0, max as nat);
    }
    Ok(acc)
}

/// `s` begins with the characters of `p`.
pub fn vec_starts_with(s: &Vec<char>, p: &Vec<char>) -> (r: bool)
    ensures
        r == starts_with(s@, p@),
{
    if p.len() > s.len() {
        return false;
    }
    let mut i: usize = 0;
    while i < p.len()
        invariant
            p@.len() <= s@.len(),
            i <= p@.len(),
            forall|k: int| 0 <= k < i ==> s@[k] == p@[k],
        decreases p@.len() - i,
    {
        if s[i] != p[i] {
            assert(s@.subrange(0, p@.len() as int)[i as int] != p@[i as int]);
            return false;
        }
        i = i + 1;
    }
    assert(s@.subrange(0, p@.len() as int) =~= p@);
    true
}

/// `std`'s `String: FromIterator<char>`: the string of the characters of `cs`.
#[verifier::external_body]
pub(crate) fn string_from_chars(cs: &Vec<char>) -> (s: String)
    ensures
        s@ == cs@,
{
    cs.iter().collect()
}

} // verus!
