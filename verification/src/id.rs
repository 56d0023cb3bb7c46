//! 128-bit identifiers and their canonical text: 32 lowercase hexadecimal
//! digits in groups of 8, 4, 4, 4 and 12, the groups joined by hyphens.

use vstd::prelude::*;
use crate::text::chars_of;

verus! {

/// A 128-bit identifier of an agent, an account, a room or a track.
#[derive(Clone, Copy, Debug, PartialEq, Eq, Structural, Hash)]
pub struct Id {
    pub value: u128,
}

/// `16` to the power `n`.
pub open spec fn pow16(n: nat) -> nat
    decreases n,
{
    if n == 0 {
        1
    } else {
        16 * pow16((n - 1) as nat)
    }
}

/// Whether `c` is one of `0`..`9`, `a`..`f`.
pub open spec fn is_hex_digit(c: char) -> bool {
    ('0' <= c && c <= '9') || ('a' <= c && c <= 'f')
}

/// The number that the hexadecimal digit `c` stands for.
pub open spec fn hex_value(c: char) -> nat {
    if '0' <= c && c <= '9' {
        (c as nat - '0' as nat) as nat
    } else {
        (c as nat - 'a' as nat + 10) as nat
    }
}

/// The lowercase hexadecimal digit for `n`, where `n < 16`.
pub open spec fn hex_char(n: nat) -> char {
    if n < 10 {
        (n + '0' as nat) as char
    } else {
        (n - 10 + 'a' as nat) as char
    }
}

/// The number that the digits `d` denote in base 16, most significant first.
pub open spec fn digits_value(d: Seq<char>) -> nat
    decreases d.len(),
{
    if d.len() == 0 {
        0
    } else {
        16 * digits_value(d.drop_last()) + hex_value(d.last())
    }
}

/// The `n` least significant base-16 digits of `v`, most significant first.
pub open spec fn value_digits(v: nat, n: nat) -> Seq<char>
    decreases n,
{
    if n == 0 {
        Seq::empty()
    } else {
        value_digits(v / 16, (n - 1) as nat).push(hex_char(v % 16))
    }
}

/// Whether every element of `d` is a lowercase hexadecimal digit.
pub open spec fn all_hex(d: Seq<char>) -> bool {
    forall|i: int| 0 <= i < d.len() ==> is_hex_digit(#[trigger] d[i])
}

/// Whether position `p` of a canonical text holds a hyphen.
pub open spec fn is_hyphen_position(p: int) -> bool {
    p == 8 || p == 13 || p == 18 || p == 23
}

/// Whether `s` is a canonical identifier text: 36 characters, hyphens at
/// positions 8, 13, 18 and 23, lowercase hexadecimal digits elsewhere.
pub open spec fn is_canonical(s: Seq<char>) -> bool {
    &&& s.len() == 36
    &&& forall|p: int|
        0 <= p < 36 ==> if is_hyphen_position(p) {
            #[trigger] s[p] == '-'
        } else {
            is_hex_digit(s[p])
        }
}

/// The 32 digits of a 36-character text, hyphen positions left out.
pub open spec fn digits_of(s: Seq<char>) -> Seq<char> {
    s.subrange(0, 8) + s.subrange(9, 13) + s.subrange(14, 18) + s.subrange(19, 23) + s.subrange(
        24,
        36,
    )
}

/// The 36-character text made of 32 digits and four hyphens.
pub open spec fn hyphenate(d: Seq<char>) -> Seq<char> {
    d.subrange(0, 8).push('-') + d.subrange(8, 12).push('-') + d.subrange(12, 16).push('-')
        + d.subrange(16, 20).push('-') + d.subrange(20, 32)
}

/// The number that a canonical text denotes.
pub open spec fn canonical_value(s: Seq<char>) -> nat {
    digits_value(digits_of(s))
}

/// The canonical text of the identifier `v`.
pub open spec fn id_text(v: u128) -> Seq<char> {
    hyphenate(value_digits(v as nat, 32))
}

/// A hexadecimal digit's value is below 16, and its digit is itself.
pub proof fn lemma_hex_char_of_value(c: char)
    requires
        is_hex_digit(c),
    ensures
        hex_value(c) < 16,
        hex_char(hex_value(c)) == c,
{
}

/// The digit for a number below 16 is a hexadecimal digit with that value.
pub proof fn lemma_hex_value_of_char(n: nat)
    requires
        n < 16,
    ensures
        is_hex_digit(hex_char(n)),
        hex_value(hex_char(n)) == n,
{
}

/// A numeral of `d.len()` digits is below `16` to that power.
pub proof fn lemma_digits_value_bound(d: Seq<char>)
    requires
        all_hex(d),
    ensures
        digits_value(d) < pow16(d.len()),
    decreases d.len(),
{
    if d.len() > 0 {
        lemma_digits_value_bound(d.drop_last());
        lemma_hex_char_of_value(d.last());
    }
}

/// Writing out the value of a numeral gives the numeral back.
pub proof fn lemma_digits_of_value(d: Seq<char>)
    requires
        all_hex(d),
    ensures
        value_digits(digits_value(d), d.len()) == d,
    decreases d.len(),
{
    if d.len() > 0 {
        let v = digits_value(d);
        lemma_digits_of_value(d.drop_last());
        lemma_hex_char_of_value(d.last());
        assert(v / 16 == digits_value(d.drop_last()));
        assert(v % 16 == hex_value(d.last()));
        assert(d.drop_last().push(d.last()) =~= d);
    } else {
        assert(value_digits(digits_value(d), 0) =~= d);
    }
}

/// The `n` digits of a number below `16` to the power `n` are hexadecimal
/// digits that denote the number.
pub proof fn lemma_value_of_digits(v: nat, n: nat)
    requires
        v < pow16(n),
    ensures
        value_digits(v, n).len() == n,
        all_hex(value_digits(v, n)),
        digits_value(value_digits(v, n)) == v,
    decreases n,
{
    if n > 0 {
        let rest = value_digits(v / 16, (n - 1) as nat);
        let d = value_digits(v, n);
        lemma_value_of_digits(v / 16, (n - 1) as nat);
        lemma_hex_value_of_char(v % 16);
        assert(d.drop_last() =~= rest);
        assert(d.last() == hex_char(v % 16));
        assert forall|i: int| 0 <= i < d.len() implies is_hex_digit(#[trigger] d[i]) by {
            if i < n - 1 {
                assert(d[i] == rest[i]);
            }
        }
    }
}

/// `16` to the power `32` is `2` to the power `128`.
pub proof fn lemma_pow16_32()
    ensures
        pow16(32) == 0x1_0000_0000_0000_0000_0000_0000_0000_0000,
{
    reveal_with_fuel(pow16, 33);
}

/// Taking the digits out of a hyphenated text gives the digits that went in.
pub proof fn lemma_digits_of_hyphenate(d: Seq<char>)
    requires
        d.len() == 32,
    ensures
        hyphenate(d).len() == 36,
        digits_of(hyphenate(d)) == d,
        all_hex(d) ==> is_canonical(hyphenate(d)),
{
    let s = hyphenate(d);
    assert(s.len() == 36);
    assert(digits_of(s) =~= d);
    if all_hex(d) {
        assert forall|p: int| 0 <= p < 36 implies if is_hyphen_position(p) {
            #[trigger] s[p] == '-'
        } else {
            is_hex_digit(s[p])
        } by {
            if p < 8 {
                assert(s[p] == d[p]);
            } else if p == 8 {
            } else if p < 13 {
                assert(s[p] == d[p - 1]);
            } else if p == 13 {
            } else if p < 18 {
                assert(s[p] == d[p - 2]);
            } else if p == 18 {
            } else if p < 23 {
                assert(s[p] == d[p - 3]);
            } else if p == 23 {
            } else {
                assert(s[p] == d[p - 4]);
            }
        }
    }
}

/// Hyphenating the digits of a canonical text gives the text back.
pub proof fn lemma_hyphenate_digits_of(s: Seq<char>)
    requires
        is_canonical(s),
    ensures
        digits_of(s).len() == 32,
        all_hex(digits_of(s)),
        hyphenate(digits_of(s)) == s,
{
    let d = digits_of(s);
    assert(d.len() == 32);
    assert forall|i: int| 0 <= i < d.len() implies is_hex_digit(#[trigger] d[i]) by {
        if i < 8 {
            assert(d[i] == s[i]);
        } else if i < 12 {
            assert(d[i] == s[i + 1]);
        } else if i < 16 {
            assert(d[i] == s[i + 2]);
        } else if i < 20 {
            assert(d[i] == s[i + 3]);
        } else {
            assert(d[i] == s[i + 4]);
        }
    }
    assert(s[8] == '-' && s[13] == '-' && s[18] == '-' && s[23] == '-');
    assert(hyphenate(d) =~= s);
}

/// The value of a canonical text fits in 128 bits.
pub proof fn lemma_canonical_value_fits(s: Seq<char>)
    requires
        is_canonical(s),
    ensures
        canonical_value(s) <= u128::MAX,
{
    lemma_hyphenate_digits_of(s);
    lemma_digits_value_bound(digits_of(s));
    lemma_pow16_32();
}

/// The text of an identifier is canonical and denotes the identifier.
pub proof fn lemma_value_round_trip(v: u128)
    ensures
        is_canonical(id_text(v)),
        canonical_value(id_text(v)) == v,
{
    lemma_pow16_32();
    lemma_value_of_digits(v as nat, 32);
    lemma_digits_of_hyphenate(value_digits(v as nat, 32));
}

/// A canonical text is the text of the identifier that it denotes.
pub proof fn lemma_text_round_trip(s: Seq<char>)
    requires
        is_canonical(s),
    ensures
        canonical_value(s) <= u128::MAX,
        id_text(canonical_value(s) as u128) == s,
{
    lemma_canonical_value_fits(s);
    lemma_hyphenate_digits_of(s);
    lemma_digits_of_value(digits_of(s));
}

/// Whether `c` is a lowercase hexadecimal digit.
pub fn is_hex_digit_char(c: char) -> (r: bool)
    ensures
        r == is_hex_digit(c),
{
    ('0' <= c && c <= '9') || ('a' <= c && c <= 'f')
}

/// Whether `chars` is a canonical identifier text.
pub fn is_canonical_text(chars: &Vec<char>) -> (r: bool)
    ensures
        r == is_canonical(chars@),
{
    if chars.len() != 36 {
        return false;
    }
    let mut p: usize = 0;
    while p < 36
        invariant
            p <= 36,
            chars.len() == 36,
            forall|q: int|
                0 <= q < p ==> if is_hyphen_position(q) {
                    #[trigger] chars@[q] == '-'
                } else {
                    is_hex_digit(chars@[q])
                },
        decreases 36 - p,
    {
        let c = chars[p];
        let hyphen_here = p == 8 || p == 13 || p == 18 || p == 23;
        if hyphen_here {
            if c != '-' {
                return false;
            }
        } else if !is_hex_digit_char(c) {
            return false;
        }
        p += 1;
    }
    true
}

/// `uuid::Uuid::parse_str` followed by `uuid::Uuid::as_u128`, for a text in
/// canonical form. On such a text the outside parser succeeds: it reads the
/// 32 digits, hyphens left out, as 16 bytes in the order written, and the
/// conversion packs those bytes into a number, first byte most significant.
/// The contract says that the number is the one the digits denote in base 16.
#[verifier::external_body]
fn uuid_parse(text: &str) -> (r: Option<u128>)
    requires
        is_canonical(text@),
    ensures
        r == Some(canonical_value(text@) as u128),
{
    match uuid::Uuid::parse_str(text) {
        Ok(parsed) => Some(parsed.as_u128()),
        Err(_) => None,
    }
}

/// `uuid::Uuid::from_u128`, formatted through `uuid::Uuid::hyphenated`. The
/// outside formatter writes the 16 bytes of the number, most significant
/// first, as 32 lowercase hexadecimal digits with hyphens after the 8th,
/// 12th, 16th and 20th digit. The contract says that the string is that text.
#[verifier::external_body]
fn uuid_format(value: u128) -> (r: String)
    ensures
        r@ == id_text(value),
{
    uuid::Uuid::from_u128(value).hyphenated().to_string()
}

impl Id {
    /// The identifier with the given number.
    pub fn new(value: u128) -> (r: Id)
        ensures
            r.value == value,
    {
        Id { value }
    }

    /// Reads an identifier from its canonical text. Any other text, such as
    /// one with an uppercase digit, a missing digit or a misplaced hyphen, is
    /// turned down before the identifier parser sees it.
    pub fn parse(text: &str) -> (r: Option<Id>)
        ensures
            r == if is_canonical(text@) {
                Some(Id { value: canonical_value(text@) as u128 })
            } else {
                None
            },
    {
        let chars = chars_of(text);
        if !is_canonical_text(&chars) {
            return None;
        }
        match uuid_parse(text) {
            Some(value) => Some(Id { value }),
            None => None,
        }
    }

    /// The canonical text of the identifier.
    pub fn to_string(&self) -> (r: String)
        ensures
            r@ == id_text(self.value),
    {
        uuid_format(self.value)
    }
}

} // verus!
