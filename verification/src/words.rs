//! Tokenization and small string utilities: Unicode word segmentation
//! (trusted, from the `unicode-segmentation` crate), token rejoining, and
//! decimal number parsing.

use vstd::prelude::*;

verus! {

use unicode_segmentation::UnicodeSegmentation;
use vstd::string::StringExecFns;

/// The sequence of words that Unicode (UAX#29) word segmentation yields for
/// a line of text. The segmentation rules fill many pages, so the result is
/// only named here; it is a pure function of the line's characters.
pub uninterp spec fn unicode_words_of(line: Seq<char>) -> Seq<Seq<char>>;

/// View of a sequence of string slices as a sequence of character sequences.
pub open spec fn words_view(ws: Seq<&str>) -> Seq<Seq<char>> {
    ws.map_values(|w: &str| w@)
}

/// Relies on `unicode_segmentation::UnicodeSegmentation::unicode_words`:
/// it splits a string on UAX#29 word boundaries and keeps the substrings
/// that contain an alphanumeric character, depending on the characters alone.
#[verifier::external_body]
pub(crate) fn unicode_words_vec<'a>(line: &'a str) -> (r: Vec<&'a str>)
    ensures
        words_view(r@) == unicode_words_of(line@),
{
    line.unicode_words().collect()
}

/// Relies on `<str as PartialEq>::eq`: two string slices are equal exactly
/// when their character sequences are.
#[verifier::external_body]
pub(crate) fn str_eq(a: &str, b: &str) -> (r: bool)
    ensures
        r == (a@ == b@),
{
    a == b
}

/// The tokens of `ws` joined by single spaces, with no leading or trailing
/// space around the whole.
pub open spec fn join_words(ws: Seq<Seq<char>>) -> Seq<char>
    decreases ws.len(),
{
    if ws.len() == 0 {
        Seq::empty()
    } else if ws.len() == 1 {
        ws[0]
    } else {
        join_words(ws.drop_last()) + seq![' '] + ws.last()
    }
}

/// Rejoins a slice of tokens into one string, the tokens separated by single
/// spaces, with no trailing space.
pub fn aux_string(input: &[&str]) -> (r: String)
    ensures
        r@ == join_words(words_view(input@)),
{
    let ghost wv = words_view(input@);
    let mut acc = String::new();
    let n = input.len();
    proof {
        reveal_strlit(" ");
        assert(wv.take(0) =~= Seq::<Seq<char>>::empty());
    }
    for i in 0..n
        invariant
            n == input@.len(),
            wv == words_view(input@),
            acc@ == join_words(wv.take(i as int)),
    {
        proof {
            reveal_strlit(" ");
            assert(" "@ =~= seq![' ']);
            assert(wv.take(i + 1).drop_last() =~= wv.take(i as int));
            assert(wv.take(i + 1).last() == input@[i as int]@);
        }
        if i > 0 {
            acc.append(" ");
        }
        acc.append(input[i]);
        proof {
            if i == 0 {
                assert(acc@ =~= wv.take(1)[0]);
            }
        }
    }
    proof {
        assert(wv.take(n as int) =~= wv);
    }
    acc
}

/// `c` is an ASCII decimal digit.
pub open spec fn is_dec_digit(c: char) -> bool {
    48 <= c as int <= 57
}

/// The numeric value of the digit `c`.
pub open spec fn dec_digit_val(c: char) -> int {
    c as int - 48
}

/// Every character of `s` is an ASCII decimal digit.
pub open spec fn all_dec_digits(s: Seq<char>) -> bool {
    forall|i: int| 0 <= i < s.len() ==> is_dec_digit(#[trigger] s[i])
}

/// The value of `s` read as a decimal numeral.
pub open spec fn dec_value(s: Seq<char>) -> int
    decreases s.len(),
{
    if s.len() == 0 {
        0
    } else {
        dec_value(s.drop_last()) * 10 + dec_digit_val(s.last())
    }
}

/// `s` is a well-formed decimal numeral whose value fits below `bound`.
pub open spec fn is_dec_numeral_upto(s: Seq<char>, bound: int) -> bool {
    s.len() > 0 && all_dec_digits(s) && dec_value(s) <= bound
}

/// A numeral's value only grows as digits are appended on the right.
proof fn lemma_dec_value_prefix(s: Seq<char>, j: int)
    requires
        all_dec_digits(s),
        0 <= j <= s.len(),
    ensures
        0 <= dec_value(s.take(j)) <= dec_value(s),
    decreases s.len() - j,
{
    if j == s.len() {
        assert(s.take(j) =~= s);
        lemma_dec_value_nonneg(s);
    } else {
        lemma_dec_value_prefix(s, j + 1);
        assert(s.take(j + 1).drop_last() =~= s.take(j));
        assert(s.take(j + 1).last() == s[j]);
        lemma_dec_value_nonneg(s.take(j));
    }
}

/// A numeral of digits has a non-negative value.
proof fn lemma_dec_value_nonneg(s: Seq<char>)
    requires
        all_dec_digits(s),
    ensures
        dec_value(s) >= 0,
    decreases s.len(),
{
    if s.len() > 0 {
        assert(all_dec_digits(s.drop_last()));
        lemma_dec_value_nonneg(s.drop_last());
    }
}

/// Parses `s` as an unsigned decimal numeral. Returns the value exactly when
/// `s` is non-empty, all ASCII digits, and the value fits in a `u64`.
pub fn parse_u64(s: &str) -> (r: Option<u64>)
    ensures
        is_dec_numeral_upto(s@, u64::MAX as int) ==> r == Some::<u64>(dec_value(s@) as u64),
        !is_dec_numeral_upto(s@, u64::MAX as int) ==> r is None,
{
    let n = s.unicode_len();
    if n == 0 {
        return None;
    }
    let mut acc: u64 = 0;
    for i in 0..n
        invariant
            n == s@.len(),
            all_dec_digits(s@.take(i as int)),
            acc == dec_value(s@.take(i as int)),
    {
        let c = s.get_char(i);
        let d = c as u32;
        proof {
            assert(s@.take(i + 1).drop_last() =~= s@.take(i as int));
            assert(s@.take(i + 1).last() == s@[i as int]);
        }
        if d < 48 || d > 57 {
            return None;
        }
        let dv = (d - 48) as u64;
        if acc > (u64::MAX - dv) / 10 {
            proof {
                assert(all_dec_digits(s@.take(i + 1)));
                if all_dec_digits(s@) {
                    lemma_dec_value_prefix(s@, i + 1);
                    assert(dec_value(s@.take(i + 1)) > u64::MAX as int) by {
                        assert(acc * 10 + dv > u64::MAX as int) by (nonlinear_arith)
                            requires
                                acc > (u64::MAX - dv) / 10,
                                dv <= 9,
                        ;
                    }
                }
            }
            return None;
        }
        acc = acc * 10 + dv;
    }
    proof {
        assert(s@.take(n as int) =~= s@);
    }
    Some(acc)
}

/// Parses `s` as a decimal `u32`, as a chapter count is written.
pub fn parse_u32(s: &str) -> (r: Option<u32>)
    ensures
        is_dec_numeral_upto(s@, u32::MAX as int) ==> r == Some::<u32>(dec_value(s@) as u32),
        !is_dec_numeral_upto(s@, u32::MAX as int) ==> r is None,
{
    proof {
        if all_dec_digits(s@) {
            lemma_dec_value_nonneg(s@);
        }
    }
    match parse_u64(s) {
        Some(v) => if v <= u32::MAX as u64 {
            Some(v as u32)
        } else {
            None
        },
        None => None,
    }
}

/// Parses `s` as a decimal `u16`, as a channel count is written.
pub fn parse_u16(s: &str) -> (r: Option<u16>)
    ensures
        is_dec_numeral_upto(s@, u16::MAX as int) ==> r == Some::<u16>(dec_value(s@) as u16),
        !is_dec_numeral_upto(s@, u16::MAX as int) ==> r is None,
{
    proof {
        if all_dec_digits(s@) {
            lemma_dec_value_nonneg(s@);
        }
    }
    match parse_u64(s) {
        Some(v) => if v <= u16::MAX as u64 {
            Some(v as u16)
        } else {
            None
        },
        None => None,
    }
}

} // verus!
