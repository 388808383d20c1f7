//! Account identities: 20-byte addresses and their one canonical text,
//! `0x` followed by 40 lowercase hex digits.

use vstd::prelude::*;
use vstd::string::StringExecFns;

verus! {

/// The lowercase hex digit of a value below 16.
pub open spec fn hex_digit(value: int) -> char {
    if value == 0 {
        '0'
    } else if value == 1 {
        '1'
    } else if value == 2 {
        '2'
    } else if value == 3 {
        '3'
    } else if value == 4 {
        '4'
    } else if value == 5 {
        '5'
    } else if value == 6 {
        '6'
    } else if value == 7 {
        '7'
    } else if value == 8 {
        '8'
    } else if value == 9 {
        '9'
    } else if value == 10 {
        'a'
    } else if value == 11 {
        'b'
    } else if value == 12 {
        'c'
    } else if value == 13 {
        'd'
    } else if value == 14 {
        'e'
    } else {
        'f'
    }
}

/// Two lowercase hex digits for each byte, the high half first.
pub open spec fn hex_digits(bytes: Seq<u8>) -> Seq<char> {
    Seq::new(
        2 * bytes.len(),
        |i: int|
            if i % 2 == 0 {
                hex_digit(bytes[i / 2] as int / 16)
            } else {
                hex_digit(bytes[i / 2] as int % 16)
            },
    )
}

/// The canonical text of a byte string: `0x`, then its lowercase hex digits.
pub open spec fn canonical_hex(bytes: Seq<u8>) -> Seq<char> {
    seq!['0', 'x'] + hex_digits(bytes)
}

/// Different values below 16 have different digits.
pub(crate) proof fn lemma_hex_digit_injective(a: int, b: int)
    requires
        0 <= a < 16,
        0 <= b < 16,
        hex_digit(a) == hex_digit(b),
    ensures
        a == b,
{
}

/// No two byte strings share a canonical text: an identity has exactly one
/// textual form, and a textual form names exactly one identity.
pub proof fn lemma_canonical_hex_injective(a: Seq<u8>, b: Seq<u8>)
    requires
        canonical_hex(a) == canonical_hex(b),
    ensures
        a == b,
{
    let ta = canonical_hex(a);
    let tb = canonical_hex(b);
    assert(ta.len() == 2 + 2 * a.len());
    assert(tb.len() == 2 + 2 * b.len());
    assert(a.len() == b.len());
    assert forall|k: int| 0 <= k < a.len() implies a[k] == b[k] by {
        assert(ta[2 + 2 * k] == hex_digits(a)[2 * k]);
        assert(tb[2 + 2 * k] == hex_digits(b)[2 * k]);
        assert(ta[2 + 2 * k + 1] == hex_digits(a)[2 * k + 1]);
        assert(tb[2 + 2 * k + 1] == hex_digits(b)[2 * k + 1]);
        lemma_hex_digit_injective(a[k] as int / 16, b[k] as int / 16);
        lemma_hex_digit_injective(a[k] as int % 16, b[k] as int % 16);
    }
    assert(a =~= b);
}

/// Appends the lowercase hex digit of `value` to `text`.
pub(crate) fn push_hex_digit(text: &mut String, value: u8)
    requires
        value < 16,
    ensures
        final(text)@ == old(text)@.push(hex_digit(value as int)),
{
    proof {
        reveal_strlit("0");
        reveal_strlit("1");
        reveal_strlit("2");
        reveal_strlit("3");
        reveal_strlit("4");
        reveal_strlit("5");
        reveal_strlit("6");
        reveal_strlit("7");
        reveal_strlit("8");
        reveal_strlit("9");
        reveal_strlit("a");
        reveal_strlit("b");
        reveal_strlit("c");
        reveal_strlit("d");
        reveal_strlit("e");
        reveal_strlit("f");
    }
    let ghost before = text@;
    let digit = match value {
        0 => "0",
        1 => "1",
        2 => "2",
        3 => "3",
        4 => "4",
        5 => "5",
        6 => "6",
        7 => "7",
        8 => "8",
        9 => "9",
        10 => "a",
        11 => "b",
        12 => "c",
        13 => "d",
        14 => "e",
        _ => "f",
    };
    assert(digit@ =~= seq![hex_digit(value as int)]);
    text.append(digit);
    assert(text@ =~= before.push(hex_digit(value as int)));
}

/// The canonical text of a byte string.
pub fn to_canonical_hex(bytes: &[u8]) -> (text: String)
    ensures
        text@ == canonical_hex(bytes@),
{
    let mut text = String::from_str("0x");
    proof {
        reveal_strlit("0x");
    }
    assert(text@ =~= canonical_hex(bytes@.take(0)));
    let mut i: usize = 0;
    while i < bytes.len()
        invariant
            i <= bytes.len(),
            text@ == canonical_hex(bytes@.take(i as int)),
        decreases bytes.len() - i,
    {
        let byte = bytes[i];
        let ghost before = text@;
        push_hex_digit(&mut text, byte / 16);
        push_hex_digit(&mut text, byte % 16);
        proof {
            let shorter = bytes@.take(i as int);
            let longer = bytes@.take(i as int + 1);
            assert(longer =~= shorter.push(byte));
            assert(text@ == before.push(hex_digit(byte as int / 16)).push(
                hex_digit(byte as int % 16),
            ));
            assert(text@ =~= canonical_hex(longer));
        }
        i = i + 1;
    }
    assert(bytes@.take(i as int) =~= bytes@);
    text
}

/// An account identity: the 20 bytes of an address.
#[derive(Clone, Copy, Debug)]
pub struct Address {
    pub bytes: [u8; 20],
}

impl View for Address {
    type V = Seq<u8>;

    open spec fn view(&self) -> Seq<u8> {
        self.bytes@
    }
}

/// Whether a character is a hex digit, of either case.
pub open spec fn is_hex_char(c: char) -> bool {
    ('0' <= c && c <= '9') || ('a' <= c && c <= 'f') || ('A' <= c && c <= 'F')
}

/// The value of a hex digit, of either case.
pub open spec fn hex_value(c: char) -> int {
    if '0' <= c && c <= '9' {
        c as int - '0' as int
    } else if 'a' <= c && c <= 'f' {
        c as int - 'a' as int + 10
    } else {
        c as int - 'A' as int + 10
    }
}

/// The bytes that a run of hex digits spells, two digits to the byte, the
/// high half first.
pub open spec fn bytes_of_digits(digits: Seq<char>) -> Seq<u8> {
    Seq::new(
        digits.len() / 2,
        |i: int| (16 * hex_value(digits[2 * i]) + hex_value(digits[2 * i + 1])) as u8,
    )
}

/// Whether every character of a text is a hex digit.
pub open spec fn all_hex(digits: Seq<char>) -> bool {
    forall|i: int| 0 <= i < digits.len() ==> is_hex_char(#[trigger] digits[i])
}

/// The characters that the address parser passes over: space, carriage
/// return, line feed and tab.
pub open spec fn is_blank(c: char) -> bool {
    c == ' ' || c == '\r' || c == '\n' || c == '\t'
}

/// A text without the characters that the address parser passes over.
pub open spec fn without_blanks(text: Seq<char>) -> Seq<char>
    decreases text.len(),
{
    if text.len() == 0 {
        text
    } else if is_blank(text.last()) {
        without_blanks(text.drop_last())
    } else {
        without_blanks(text.drop_last()).push(text.last())
    }
}

/// A text without `0x` in front, where it has that.
pub open spec fn without_prefix(text: Seq<char>) -> Seq<char> {
    if text.len() >= 2 && text[0] == '0' && text[1] == 'x' {
        text.skip(2)
    } else {
        text
    }
}

/// The bytes of the address that a text spells: after `0x`, if it is there,
/// and but for blanks, the text must be 40 hex digits, of either case.
pub open spec fn address_bytes(text: Seq<char>) -> Option<Seq<u8>> {
    let digits = without_blanks(without_prefix(text));
    if digits.len() == 40 && all_hex(digits) {
        Some(bytes_of_digits(digits))
    } else {
        None
    }
}

/// The message of the parser's error on a text that spells no address.
pub uninterp spec fn address_parse_error(text: Seq<char>) -> Seq<char>;

/// What parsing a text as an address gives: its 20 bytes, or the message of
/// the parser's error.
pub open spec fn address_parsing(text: Seq<char>) -> Result<Seq<u8>, Seq<char>> {
    match address_bytes(text) {
        Some(bytes) => Ok(bytes),
        None => Err(address_parse_error(text)),
    }
}

/// `str::parse` to `ethers::types::Address`: the text is taken without `0x`
/// in front, blanks are passed over, and exactly 40 hex digits give the 20
/// bytes; on any other text the result is the error, rendered as the text
/// that it displays, which is named.
#[verifier::external_body]
fn parse_address(text: &str) -> (res: Result<Address, String>)
    ensures
        match address_bytes(text@) {
            Some(bytes) => res matches Ok(address) && address@ == bytes,
            None => res matches Err(shown) && shown@ == address_parse_error(text@),
        },
{
    match text.parse::<ethers::types::Address>() {
        Ok(address) => Ok(Address { bytes: address.0 }),
        Err(error) => Err(error.to_string()),
    }
}

/// A text without blanks stays as it is when blanks are taken out.
proof fn lemma_without_blanks_keeps(text: Seq<char>)
    requires
        forall|i: int| 0 <= i < text.len() ==> !is_blank(#[trigger] text[i]),
    ensures
        without_blanks(text) == text,
    decreases text.len(),
{
    if text.len() > 0 {
        lemma_without_blanks_keeps(text.drop_last());
        assert(text.drop_last().push(text.last()) =~= text);
    }
}

/// A letter in lower case; any other character as it is.
pub open spec fn lowercase(c: char) -> char {
    if 'A' <= c && c <= 'Z' {
        ((c as int) + 32) as char
    } else {
        c
    }
}

/// A character that is, but for its case, the digit of a value below 16 is
/// a hex digit with that value, and no blank.
proof fn lemma_hex_digit_of_either_case(c: char, value: int)
    requires
        0 <= value < 16,
        lowercase(c) == hex_digit(value),
    ensures
        is_hex_char(c),
        hex_value(c) == value,
        !is_blank(c),
{
}

/// The canonical text of 20 bytes, with any of its letters in upper case,
/// spells the address of those bytes: identities are found whatever the case
/// of their text.
pub proof fn lemma_any_case_of_canonical_hex_parses_back(text: Seq<char>, bytes: Seq<u8>)
    requires
        bytes.len() == 20,
        text.len() == 42,
        text[0] == '0',
        text[1] == 'x',
        forall|i: int| 2 <= i < 42 ==> lowercase(#[trigger] text[i]) == canonical_hex(bytes)[i],
    ensures
        address_parsing(text) == Ok::<Seq<u8>, Seq<char>>(bytes),
{
    let digits = text.skip(2);
    assert(without_prefix(text) == digits);
    assert forall|i: int| 0 <= i < digits.len() implies !is_blank(#[trigger] digits[i])
        && is_hex_char(digits[i]) by {
        assert(digits[i] == text[i + 2]);
        assert(canonical_hex(bytes)[i + 2] == hex_digits(bytes)[i]);
        if i % 2 == 0 {
            lemma_hex_digit_of_either_case(digits[i], bytes[i / 2] as int / 16);
        } else {
            lemma_hex_digit_of_either_case(digits[i], bytes[i / 2] as int % 16);
        }
    }
    lemma_without_blanks_keeps(digits);
    assert(all_hex(digits));
    assert forall|k: int| 0 <= k < 20 implies bytes_of_digits(digits)[k] == bytes[k] by {
        assert(digits[2 * k] == text[2 * k + 2]);
        assert(digits[2 * k + 1] == text[2 * k + 3]);
        assert(canonical_hex(bytes)[2 * k + 2] == hex_digits(bytes)[2 * k]);
        assert(canonical_hex(bytes)[2 * k + 3] == hex_digits(bytes)[2 * k + 1]);
        lemma_hex_digit_of_either_case(digits[2 * k], bytes[k] as int / 16);
        lemma_hex_digit_of_either_case(digits[2 * k + 1], bytes[k] as int % 16);
    }
    assert(bytes_of_digits(digits) =~= bytes);
}

/// The canonical text of 20 bytes spells the address of those bytes: what
/// `to_hex` writes, `parse` reads back.
pub proof fn lemma_canonical_hex_parses_back(bytes: Seq<u8>)
    requires
        bytes.len() == 20,
    ensures
        address_parsing(canonical_hex(bytes)) == Ok::<Seq<u8>, Seq<char>>(bytes),
{
    let text = canonical_hex(bytes);
    assert forall|i: int| 2 <= i < 42 implies lowercase(#[trigger] text[i]) == text[i] by {
        assert(text[i] == hex_digits(bytes)[i - 2]);
    }
    lemma_any_case_of_canonical_hex_parses_back(text, bytes);
}

/// Types with a canonical lowercase hex text.
pub trait ToHex {
    /// The bytes that the text spells out.
    spec fn hex_bytes(&self) -> Seq<u8>;

    /// `0x`, then two lowercase hex digits for each byte.
    fn to_hex(&self) -> (text: String)
        ensures
            text@ == canonical_hex(self.hex_bytes()),
    ;
}

impl ToHex for Address {
    open spec fn hex_bytes(&self) -> Seq<u8> {
        self@
    }

    fn to_hex(&self) -> (text: String) {
        to_canonical_hex(self.bytes.as_slice())
    }
}

impl Address {
    /// The address of these 20 bytes.
    pub fn new(bytes: [u8; 20]) -> (address: Self)
        ensures
            address@ == bytes@,
    {
        Address { bytes }
    }

    /// Parses the text of an address, in either case and with or without
    /// `0x` in front.
    pub fn parse(text: &str) -> (res: Result<Address, String>)
        ensures
            match address_parsing(text@) {
                Ok(bytes) => res matches Ok(address) && address@ == bytes,
                Err(message) => res matches Err(shown) && shown@ == message,
            },
    {
        parse_address(text)
    }

    /// Whether two addresses are the same identity.
    pub fn same(&self, other: &Address) -> (equal: bool)
        ensures
            equal == (self@ == other@),
    {
        let mut i: usize = 0;
        while i < 20
            invariant
                i <= 20,
                forall|k: int| 0 <= k < i ==> self.bytes@[k] == other.bytes@[k],
            decreases 20 - i,
        {
            if self.bytes[i] != other.bytes[i] {
                return false;
            }
            i = i + 1;
        }
        assert(self@ =~= other@);
        true
    }
}

impl core::str::FromStr for Address {
    type Err = String;

    fn from_str(text: &str) -> (res: Result<Self, Self::Err>)
        ensures
            match address_parsing(text@) {
                Ok(bytes) => res matches Ok(address) && address@ == bytes,
                Err(message) => res matches Err(shown) && shown@ == message,
            },
    {
        Address::parse(text)
    }
}

} // verus!
