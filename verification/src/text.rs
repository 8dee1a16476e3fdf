//! The textual forms of a UUID, as mathematical statements over sequences of
//! characters and octets: which texts denote an identifier, which sixteen
//! octets such a text spells, and how sixteen octets are written out.

use vstd::prelude::*;
use vstd::utf8::encode_utf8;
use vstd::utf8::is_ascii_chars;
use vstd::utf8::is_ascii_chars_encode_utf8;

verus! {

/// Whether `c` is one of `0`-`9`, `a`-`f` or `A`-`F`.
pub open spec fn is_hex_digit(c: char) -> bool {
    ('0' <= c && c <= '9') || ('a' <= c && c <= 'f') || ('A' <= c && c <= 'F')
}

/// The number, from 0 to 15, that a hexadecimal digit of either case stands for.
pub open spec fn hex_value(c: char) -> int {
    if '0' <= c && c <= '9' {
        c as int - '0' as int
    } else if 'a' <= c && c <= 'f' {
        c as int - 'a' as int + 10
    } else {
        c as int - 'A' as int + 10
    }
}

/// The lower-case hexadecimal digit that stands for `n`, for `n` from 0 to 15.
pub open spec fn hex_digit(n: int) -> char {
    if n < 10 {
        ('0' as int + n) as char
    } else {
        ('a' as int + n - 10) as char
    }
}

/// The ASCII lower-case form of `c`: `A`-`Z` become `a`-`z`, every other
/// character stays as it is.
pub open spec fn lower(c: char) -> char {
    if 'A' <= c && c <= 'Z' {
        (c as int + 32) as char
    } else {
        c
    }
}

/// `text` with every character in its ASCII lower-case form.
pub open spec fn lowercase(text: Seq<char>) -> Seq<char> {
    Seq::new(text.len(), |i: int| lower(text[i]))
}

/// The four places at which the hyphenated form holds a hyphen, which split
/// its digits into groups of 8, 4, 4, 4 and 12.
pub open spec fn is_hyphen_position(i: int) -> bool {
    i == 8 || i == 13 || i == 18 || i == 23
}

/// The place in the hyphenated form of the digit that is number `d` among the
/// thirty-two digits.
pub open spec fn text_position(d: int) -> int {
    if d < 8 {
        d
    } else if d < 12 {
        d + 1
    } else if d < 16 {
        d + 2
    } else if d < 20 {
        d + 3
    } else {
        d + 4
    }
}

/// The number among the thirty-two digits of the digit that stands at place
/// `i` of the hyphenated form.
pub open spec fn digit_index(i: int) -> int {
    if i < 8 {
        i
    } else if i < 13 {
        i - 1
    } else if i < 18 {
        i - 2
    } else if i < 23 {
        i - 3
    } else {
        i - 4
    }
}

/// The simple form: thirty-two hexadecimal digits and nothing else.
pub open spec fn is_simple(text: Seq<char>) -> bool {
    &&& text.len() == 32
    &&& forall|i: int| 0 <= i < 32 ==> is_hex_digit(#[trigger] text[i])
}

/// The hyphenated form: thirty-six characters, hyphens at the four hyphen
/// positions and hexadecimal digits everywhere else.
pub open spec fn is_hyphenated(text: Seq<char>) -> bool {
    &&& text.len() == 36
    &&& forall|i: int|
        0 <= i < 36 ==> if is_hyphen_position(i) {
            #[trigger] text[i] == '-'
        } else {
            is_hex_digit(text[i])
        }
}

/// The nine characters `urn:uuid:`.
pub open spec fn urn_prefix() -> Seq<char> {
    seq!['u', 'r', 'n', ':', 'u', 'u', 'i', 'd', ':']
}

/// The URN form: `urn:uuid:` followed by the hyphenated form. It is another
/// way to write a UUID down, and no text that this library takes.
pub open spec fn is_urn(text: Seq<char>) -> bool {
    &&& text.len() == 45
    &&& text.subrange(0, 9) == urn_prefix()
    &&& is_hyphenated(text.subrange(9, 45))
}

/// Whether `text` denotes a UUID: it is thirty-two hexadecimal digits of
/// either case, bare or split by hyphens into groups of 8, 4, 4, 4 and 12.
pub open spec fn is_uuid_text(text: Seq<char>) -> bool {
    is_simple(text) || is_hyphenated(text)
}

/// Whether `text` is in one of the three forms: simple, hyphenated or URN.
pub open spec fn is_any_form(text: Seq<char>) -> bool {
    is_simple(text) || is_hyphenated(text) || is_urn(text)
}

/// The length of `text` in bytes, which is what `str::len` gives.
pub open spec fn byte_length(text: Seq<char>) -> usize {
    encode_utf8(text).len() as usize
}

/// The thirty-two digits of a text in the hyphenated form, hyphens left out.
pub open spec fn without_hyphens(text: Seq<char>) -> Seq<char> {
    Seq::new(32, |d: int| text[text_position(d)])
}

/// The thirty-two digits of a text in one of the three forms, in the order in
/// which they stand in it.
pub open spec fn digits_of(text: Seq<char>) -> Seq<char> {
    if is_simple(text) {
        text
    } else if is_hyphenated(text) {
        without_hyphens(text)
    } else {
        without_hyphens(text.subrange(9, 45))
    }
}

/// The sixteen octets that thirty-two digits spell: each pair of digits is one
/// octet, the first digit of the pair its upper half.
pub open spec fn octets_of_digits(digits: Seq<char>) -> Seq<u8> {
    Seq::new(16, |k: int| (16 * hex_value(digits[2 * k]) + hex_value(digits[2 * k + 1])) as u8)
}

/// The sixteen octets that a text in one of the three forms spells.
pub open spec fn spelled_octets(text: Seq<char>) -> Seq<u8> {
    octets_of_digits(digits_of(text))
}

/// The upper half of `octet` for an even `d`, its lower half for an odd one.
pub open spec fn half_octet(octet: u8, d: int) -> int {
    if d % 2 == 0 {
        octet as int / 16
    } else {
        octet as int % 16
    }
}

/// The canonical text of sixteen octets: their thirty-two lower-case
/// hexadecimal digits, first octet first, in the hyphenated form.
pub open spec fn hyphenated_text(octets: Seq<u8>) -> Seq<char> {
    Seq::new(
        36,
        |i: int|
            if is_hyphen_position(i) {
                '-'
            } else {
                hex_digit(half_octet(octets[digit_index(i) / 2], digit_index(i)))
            },
    )
}

/// A hexadecimal digit stands for a number from 0 to 15, and the lower-case
/// digit for that number is the digit's own lower-case form.
pub proof fn lemma_hex_digit_of_value(c: char)
    requires
        is_hex_digit(c),
    ensures
        0 <= hex_value(c) < 16,
        hex_digit(hex_value(c)) == lower(c),
{
}

/// The digit for a number from 0 to 15 is a lower-case hexadecimal digit that
/// stands for that number.
pub proof fn lemma_value_of_hex_digit(n: int)
    requires
        0 <= n < 16,
    ensures
        is_hex_digit(hex_digit(n)),
        hex_value(hex_digit(n)) == n,
        lower(hex_digit(n)) == hex_digit(n),
{
}

/// A text in one of the three forms holds ASCII characters only, so it has as
/// many bytes as characters: 32, 36 or 45.
pub proof fn lemma_forms_are_ascii(text: Seq<char>)
    requires
        is_any_form(text),
    ensures
        is_ascii_chars(text),
        byte_length(text) == text.len(),
        is_simple(text) <==> byte_length(text) == 32,
        is_hyphenated(text) <==> byte_length(text) == 36,
        is_urn(text) <==> byte_length(text) == 45,
{
    assert forall|i: int| 0 <= i < text.len() implies '\0' <= #[trigger] text[i] <= '\u{7f}' by {
        if is_urn(text) {
            if i < 9 {
                assert(text[i] == text.subrange(0, 9)[i]);
                assert(text[i] == urn_prefix()[i]);
            } else {
                assert(text[i] == text.subrange(9, 45)[i - 9]);
            }
        }
    }
    is_ascii_chars_encode_utf8(text);
}

/// Writing out the octets that a hyphenated text spells gives that text back
/// in lower case.
pub proof fn lemma_write_spelled(text: Seq<char>)
    requires
        is_hyphenated(text),
    ensures
        hyphenated_text(spelled_octets(text)) == lowercase(text),
{
    let octets = spelled_octets(text);
    let digits = without_hyphens(text);
    assert(digits_of(text) == digits);
    assert forall|i: int| 0 <= i < 36 implies hyphenated_text(octets)[i] == lowercase(text)[i] by {
        if is_hyphen_position(i) {
            assert(text[i] == '-');
        } else {
            let d = digit_index(i);
            let k = d / 2;
            assert(text_position(d) == i);
            assert(0 <= k < 16 && 0 <= d < 32);
            let hi = text[text_position(2 * k)];
            let lo = text[text_position(2 * k + 1)];
            assert(is_hex_digit(hi)) by {
                assert(!is_hyphen_position(text_position(2 * k)));
            }
            assert(is_hex_digit(lo)) by {
                assert(!is_hyphen_position(text_position(2 * k + 1)));
            }
            lemma_hex_digit_of_value(hi);
            lemma_hex_digit_of_value(lo);
            assert(digits[2 * k] == hi && digits[2 * k + 1] == lo);
            assert(octets[k] as int == 16 * hex_value(hi) + hex_value(lo));
            if d % 2 == 0 {
                assert(d == 2 * k);
                assert(half_octet(octets[k], d) == hex_value(hi));
            } else {
                assert(d == 2 * k + 1);
                assert(half_octet(octets[k], d) == hex_value(lo));
            }
        }
    }
    assert(hyphenated_text(octets) =~= lowercase(text));
}

/// The canonical text of sixteen octets is in the hyphenated form, is its own
/// lower-case form, and spells those sixteen octets.
pub proof fn lemma_spell_written(octets: Seq<u8>)
    requires
        octets.len() == 16,
    ensures
        is_hyphenated(hyphenated_text(octets)),
        lowercase(hyphenated_text(octets)) == hyphenated_text(octets),
        spelled_octets(hyphenated_text(octets)) == octets,
{
    let text = hyphenated_text(octets);
    assert forall|i: int| 0 <= i < 36 implies (if is_hyphen_position(i) {
        #[trigger] text[i] == '-'
    } else {
        is_hex_digit(text[i])
    }) && lower(text[i]) == text[i] by {
        if !is_hyphen_position(i) {
            let d = digit_index(i);
            assert(0 <= d / 2 < 16);
            lemma_value_of_hex_digit(half_octet(octets[d / 2], d));
        }
    }
    assert(is_hyphenated(text));
    assert(lowercase(text) =~= text);
    let digits = without_hyphens(text);
    assert(digits_of(text) == digits);
    assert forall|k: int| 0 <= k < 16 implies spelled_octets(text)[k] == octets[k] by {
        let hi = 2 * k;
        let lo = 2 * k + 1;
        assert(!is_hyphen_position(text_position(hi)) && digit_index(text_position(hi)) == hi);
        assert(!is_hyphen_position(text_position(lo)) && digit_index(text_position(lo)) == lo);
        assert(digits[hi] == hex_digit(half_octet(octets[k], hi)));
        assert(digits[lo] == hex_digit(half_octet(octets[k], lo)));
        lemma_value_of_hex_digit(half_octet(octets[k], hi));
        lemma_value_of_hex_digit(half_octet(octets[k], lo));
    }
    assert(spelled_octets(text) =~= octets);
}

} // verus!
