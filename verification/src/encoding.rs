//! Base64 as a function from bytes to text, and back.

use base64::Engine;
use vstd::prelude::*;

verus! {

/// The two alphabets of sixty-four letters. They differ in the last two letters only.
pub enum Alphabet {
    /// `A-Z a-z 0-9 + /`
    Standard,
    /// `A-Z a-z 0-9 - _`
    UrlSafe,
}

/// The letter that stands for the six-bit value `v`.
pub open spec fn letter(alphabet: Alphabet, v: int) -> char
    recommends
        0 <= v < 64,
{
    if v < 26 {
        ('A' as int + v) as char
    } else if v < 52 {
        ('a' as int + (v - 26)) as char
    } else if v < 62 {
        ('0' as int + (v - 52)) as char
    } else if v == 62 {
        match alphabet {
            Alphabet::Standard => '+',
            Alphabet::UrlSafe => '-',
        }
    } else {
        match alphabet {
            Alphabet::Standard => '/',
            Alphabet::UrlSafe => '_',
        }
    }
}

/// The bytes read as one string of bits, most significant bit first, and cut
/// into groups of six. A last group that is short is filled up with zero bits.
pub open spec fn sextets(bytes: Seq<u8>) -> Seq<int>
    decreases bytes.len(),
{
    if bytes.len() == 0 {
        Seq::empty()
    } else if bytes.len() == 1 {
        let a = bytes[0] as int;
        seq![a / 4, (a % 4) * 16]
    } else if bytes.len() == 2 {
        let a = bytes[0] as int;
        let b = bytes[1] as int;
        seq![a / 4, (a % 4) * 16 + b / 16, (b % 16) * 4]
    } else {
        let a = bytes[0] as int;
        let b = bytes[1] as int;
        let c = bytes[2] as int;
        seq![a / 4, (a % 4) * 16 + b / 16, (b % 16) * 4 + c / 64, c % 64] + sextets(bytes.skip(3))
    }
}

/// The `=` signs that fill the text for `len` bytes up to a multiple of four.
pub open spec fn padding(len: nat) -> Seq<char> {
    if len % 3 == 1 {
        seq!['=', '=']
    } else if len % 3 == 2 {
        seq!['=']
    } else {
        Seq::empty()
    }
}

/// The base64 text of `bytes`: one letter for each group of six bits, and the
/// padding behind them where `padded` asks for it.
pub open spec fn base64_text(bytes: Seq<u8>, alphabet: Alphabet, padded: bool) -> Seq<char> {
    let letters = sextets(bytes).map_values(|v: int| letter(alphabet, v));
    if padded {
        letters + padding(bytes.len())
    } else {
        letters
    }
}

/// The greatest number of bytes whose text is certain to be no longer than
/// the longest buffer that can be allocated, which has `isize::MAX` bytes.
pub open spec fn max_encodable() -> int {
    (usize::MAX / 2 - 4) / 4 * 3
}

/// `Engine::encode` of the base64 crate on its engine `URL_SAFE_NO_PAD`: the
/// text of `bytes` in the URL-safe alphabet, without padding. The call stops
/// the program when no buffer can have the text's length.
#[verifier::external_body]
fn encode_url_safe_no_pad(bytes: &[u8]) -> (text: String)
    requires
        bytes@.len() <= max_encodable(),
    ensures
        text@ == base64_text(bytes@, Alphabet::UrlSafe, false),
{
    base64::engine::general_purpose::URL_SAFE_NO_PAD.encode(bytes)
}

/// `Engine::encode` of the base64 crate on its engine `STANDARD`: the text of
/// `bytes` in the standard alphabet, padded with `=` to a multiple of four
/// letters. The call stops the program when no buffer can have the text's
/// length.
#[verifier::external_body]
pub(crate) fn encode_standard_padded(bytes: &[u8]) -> (text: String)
    requires
        bytes@.len() <= max_encodable(),
    ensures
        text@ == base64_text(bytes@, Alphabet::Standard, true),
{
    base64::engine::general_purpose::STANDARD.encode(bytes)
}

/// The name of the file that holds the slot of a key with this digest: the
/// digest's URL-safe text without padding, which has 86 characters.
pub fn file_name_of_digest(digest: &[u8; 64]) -> (name: String)
    ensures
        name@ == base64_text(digest@, Alphabet::UrlSafe, false),
        name@.len() == 86,
{
    proof {
        lemma_url_safe_text(digest@);
    }
    encode_url_safe_no_pad(digest.as_slice())
}

/// The six-bit value that the letter `c` stands for, if it is a letter of the alphabet.
pub open spec fn letter_value(alphabet: Alphabet, c: char) -> Option<int> {
    if 'A' as int <= c as int <= 'Z' as int {
        Some(c as int - 'A' as int)
    } else if 'a' as int <= c as int <= 'z' as int {
        Some(c as int - 'a' as int + 26)
    } else if '0' as int <= c as int <= '9' as int {
        Some(c as int - '0' as int + 52)
    } else if c == letter(alphabet, 62) {
        Some(62)
    } else if c == letter(alphabet, 63) {
        Some(63)
    } else {
        None
    }
}

/// The bytes that groups of six bits make when they are put together again,
/// four groups to three bytes. Bits that are left over at the end are dropped.
pub open spec fn octets(values: Seq<int>) -> Seq<u8>
    decreases values.len(),
{
    if values.len() < 2 {
        Seq::empty()
    } else if values.len() == 2 {
        seq![(values[0] * 4 + values[1] / 16) as u8]
    } else if values.len() == 3 {
        seq![
            (values[0] * 4 + values[1] / 16) as u8,
            ((values[1] % 16) * 16 + values[2] / 4) as u8,
        ]
    } else {
        seq![
            (values[0] * 4 + values[1] / 16) as u8,
            ((values[1] % 16) * 16 + values[2] / 4) as u8,
            ((values[2] % 4) * 64 + values[3]) as u8,
        ] + octets(values.skip(4))
    }
}

/// `text` without the one or two `=` signs at its end, if it has any.
pub open spec fn unpadded(text: Seq<char>) -> Seq<char> {
    if text.len() >= 2 && text[text.len() - 1] == '=' && text[text.len() - 2] == '=' {
        text.take(text.len() - 2)
    } else if text.len() >= 1 && text[text.len() - 1] == '=' {
        text.take(text.len() - 1)
    } else {
        text
    }
}

/// Whether every character of `text` is a letter of the alphabet.
pub open spec fn all_letters(alphabet: Alphabet, text: Seq<char>) -> bool {
    forall|i: int| 0 <= i < text.len() ==> (#[trigger] letter_value(alphabet, text[i])) is Some
}

/// The bytes that a base64 text stands for, if it is one: a padded text has a
/// length that is a multiple of four, and the letters of any text are letters
/// of the alphabet and are not one more than a multiple of four.
pub open spec fn base64_bytes(text: Seq<char>, alphabet: Alphabet, padded: bool) -> Option<
    Seq<u8>,
> {
    let letters = if padded {
        unpadded(text)
    } else {
        text
    };
    if padded && text.len() % 4 != 0 {
        None
    } else if letters.len() % 4 == 1 || !all_letters(alphabet, letters) {
        None
    } else {
        Some(octets(letters.map_values(|c: char| letter_value(alphabet, c).unwrap())))
    }
}

/// Whether `c` is an ASCII letter, an ASCII digit, `-` or `_`.
pub open spec fn is_file_name_char(c: char) -> bool {
    ||| 'A' as int <= c as int <= 'Z' as int
    ||| 'a' as int <= c as int <= 'z' as int
    ||| '0' as int <= c as int <= '9' as int
    ||| c == '-'
    ||| c == '_'
}

/// Whether `c` separates the components of a path, or is reserved in file
/// names on some platform: a control character, or one of
/// `/ \ : * ? " < > | .` and the space.
pub open spec fn is_reserved_in_paths(c: char) -> bool {
    ||| (c as int) < 32
    ||| c == ' '
    ||| c == '/'
    ||| c == '\\'
    ||| c == ':'
    ||| c == '*'
    ||| c == '?'
    ||| c == '"'
    ||| c == '<'
    ||| c == '>'
    ||| c == '|'
    ||| c == '.'
}

/// The number of six-bit groups that `len` bytes make.
pub open spec fn sextet_count(len: nat) -> nat {
    (len / 3) * 4 + if len % 3 == 0 {
        0nat
    } else {
        (len % 3 + 1) as nat
    }
}

/// The groups of six bits are as many as the bytes need, and each is a
/// number below sixty-four.
pub proof fn lemma_sextets(bytes: Seq<u8>)
    ensures
        sextets(bytes).len() == sextet_count(bytes.len()),
        forall|i: int| 0 <= i < sextets(bytes).len() ==> 0 <= #[trigger] sextets(bytes)[i] < 64,
    decreases bytes.len(),
{
    if bytes.len() >= 3 {
        lemma_sextets(bytes.skip(3));
    }
}

/// Putting the groups of six bits together again gives the bytes back.
pub proof fn lemma_octets_of_sextets(bytes: Seq<u8>)
    ensures
        octets(sextets(bytes)) == bytes,
    decreases bytes.len(),
{
    if bytes.len() >= 3 {
        let rest = bytes.skip(3);
        lemma_octets_of_sextets(rest);
        assert(sextets(bytes).skip(4) == sextets(rest));
        assert(bytes == bytes.take(3) + rest);
    }
    assert(octets(sextets(bytes)) =~= bytes);
}

/// A letter stands for the value that it was chosen for.
pub proof fn lemma_letter_value(alphabet: Alphabet, v: int)
    requires
        0 <= v < 64,
    ensures
        letter_value(alphabet, letter(alphabet, v)) == Some(v),
        letter(alphabet, v) != '=',
        alphabet == Alphabet::UrlSafe ==> is_file_name_char(letter(alphabet, v)),
{
}

/// What the letters of a text stand for is what they were chosen for.
proof fn lemma_values_of_letters(bytes: Seq<u8>, alphabet: Alphabet)
    ensures
        all_letters(alphabet, base64_text(bytes, alphabet, false)),
        base64_text(bytes, alphabet, false).map_values(
            |c: char| letter_value(alphabet, c).unwrap(),
        ) == sextets(bytes),
{
    let letters = base64_text(bytes, alphabet, false);
    lemma_sextets(bytes);
    assert forall|i: int| 0 <= i < letters.len() implies letter_value(alphabet, letters[i])
        == Some(sextets(bytes)[i]) by {
        lemma_letter_value(alphabet, sextets(bytes)[i]);
    }
    assert(letters.map_values(|c: char| letter_value(alphabet, c).unwrap()) =~= sextets(bytes));
}

/// The letters for `len` bytes are never one more than a multiple of four,
/// and with their padding they are a multiple of four.
proof fn lemma_sextet_count(len: nat)
    ensures
        sextet_count(len) % 4 != 1,
        (sextet_count(len) + padding(len).len()) % 4 == 0,
{
    let q = len / 3;
    assert((q * 4) % 4 == 0 && (q * 4 + 2) % 4 == 2 && (q * 4 + 3) % 4 == 3 && (q * 4 + 4) % 4
        == 0) by (nonlinear_arith);
}

/// The letters of a padded text are what is left when the padding is taken off.
proof fn lemma_unpadded(bytes: Seq<u8>, alphabet: Alphabet)
    ensures
        unpadded(base64_text(bytes, alphabet, true)) == base64_text(bytes, alphabet, false),
{
    let letters = base64_text(bytes, alphabet, false);
    let text = base64_text(bytes, alphabet, true);
    lemma_sextets(bytes);
    if letters.len() > 0 {
        lemma_letter_value(alphabet, sextets(bytes)[letters.len() - 1]);
        assert(letters[letters.len() - 1] != '=');
    }
    if bytes.len() % 3 == 1 {
        assert(text[text.len() - 1] == '=' && text[text.len() - 2] == '=');
        assert(text.take(text.len() - 2) =~= letters);
    } else if bytes.len() % 3 == 2 {
        assert(text[text.len() - 1] == '=');
        assert(text[text.len() - 2] == letters[letters.len() - 1]);
        assert(text.take(text.len() - 1) =~= letters);
    } else {
        assert(text =~= letters);
    }
}

/// A base64 text stands for the bytes that it was made of: decoding it gives
/// exactly those bytes back, in either alphabet, padded or not.
pub proof fn lemma_base64_round_trip(bytes: Seq<u8>, alphabet: Alphabet, padded: bool)
    ensures
        base64_bytes(base64_text(bytes, alphabet, padded), alphabet, padded) == Some(bytes),
{
    let letters = base64_text(bytes, alphabet, false);
    let text = base64_text(bytes, alphabet, padded);
    assert(letters.len() == sextet_count(bytes.len())) by {
        lemma_sextets(bytes);
    }
    lemma_sextet_count(bytes.len());
    lemma_values_of_letters(bytes, alphabet);
    lemma_octets_of_sextets(bytes);
    if padded {
        lemma_unpadded(bytes, alphabet);
        assert(text.len() == letters.len() + padding(bytes.len()).len());
    }
}

/// Two byte sequences with the same base64 text are the same bytes.
pub proof fn lemma_base64_text_injective(
    first: Seq<u8>,
    second: Seq<u8>,
    alphabet: Alphabet,
    padded: bool,
)
    ensures
        base64_text(first, alphabet, padded) == base64_text(second, alphabet, padded) ==> first
            == second,
{
    lemma_base64_round_trip(first, alphabet, padded);
    lemma_base64_round_trip(second, alphabet, padded);
}

/// The URL-safe text without padding is made of ASCII letters, ASCII digits,
/// `-` and `_` alone, none of which separates path components or is reserved
/// in file names, and its length depends on the number of bytes only.
pub proof fn lemma_url_safe_text(bytes: Seq<u8>)
    ensures
        base64_text(bytes, Alphabet::UrlSafe, false).len() == sextet_count(bytes.len()),
        forall|i: int|
            0 <= i < base64_text(bytes, Alphabet::UrlSafe, false).len() ==> is_file_name_char(
                #[trigger] base64_text(bytes, Alphabet::UrlSafe, false)[i],
            ) && !is_reserved_in_paths(base64_text(bytes, Alphabet::UrlSafe, false)[i]),
{
    let text = base64_text(bytes, Alphabet::UrlSafe, false);
    lemma_sextets(bytes);
    assert forall|i: int| 0 <= i < text.len() implies is_file_name_char(#[trigger] text[i]) by {
        lemma_letter_value(Alphabet::UrlSafe, sextets(bytes)[i]);
    }
}

} // verus!
