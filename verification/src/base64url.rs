//! URL-safe base64 without padding (RFC 4648, section 5), as the `base64` crate's
//! `general_purpose::URL_SAFE_NO_PAD` engine writes and reads it.
use base64::Engine;
use vstd::prelude::*;

verus! {

/// The character of the URL-safe alphabet for the six-bit value `v`:
/// `A`-`Z`, `a`-`z`, `0`-`9`, then `-` and `_`.
pub open spec fn sextet(v: int) -> char {
    if v < 26 {
        (65 + v) as char
    } else if v < 52 {
        (97 + v - 26) as char
    } else if v < 62 {
        (48 + v - 52) as char
    } else if v == 62 {
        '-'
    } else {
        '_'
    }
}

/// The unpadded URL-safe base64 text of `bytes`: each group of three bytes becomes four
/// characters of six bits each, most significant bits first; a last group of one or two
/// bytes becomes two or three characters, the bits past its end set to zero.
pub open spec fn base64_url_encoding(bytes: Seq<u8>) -> Seq<char>
    decreases bytes.len(),
{
    if bytes.len() == 0 {
        Seq::empty()
    } else if bytes.len() == 1 {
        let a = bytes[0] as int;
        seq![sextet(a / 4), sextet((a % 4) * 16)]
    } else if bytes.len() == 2 {
        let a = bytes[0] as int;
        let b = bytes[1] as int;
        seq![sextet(a / 4), sextet((a % 4) * 16 + b / 16), sextet((b % 16) * 4)]
    } else {
        let a = bytes[0] as int;
        let b = bytes[1] as int;
        let c = bytes[2] as int;
        seq![
            sextet(a / 4),
            sextet((a % 4) * 16 + b / 16),
            sextet((b % 16) * 4 + c / 64),
            sextet(c % 64),
        ] + base64_url_encoding(bytes.subrange(3, bytes.len() as int))
    }
}

/// The bytes whose encoding `text` is, where there are any: decoding accepts exactly the
/// texts that encoding writes (no padding, no stray bits in the last character).
pub open spec fn base64_url_decoding(text: Seq<char>) -> Option<Seq<u8>> {
    if exists|b: Seq<u8>| #[trigger] base64_url_encoding(b) == text {
        Some(choose|b: Seq<u8>| #[trigger] base64_url_encoding(b) == text)
    } else {
        None
    }
}

/// Whether `c` belongs to the URL-safe base64 alphabet `A-Z a-z 0-9 - _`.
pub open spec fn is_url_safe_char(c: char) -> bool {
    ||| ('A' as int) <= (c as int) <= ('Z' as int)
    ||| ('a' as int) <= (c as int) <= ('z' as int)
    ||| ('0' as int) <= (c as int) <= ('9' as int)
    ||| c == '-'
    ||| c == '_'
}

/// The length of the unpadded base64 text of `n` bytes: four characters for each full
/// group of three bytes, two or three for a remainder of one or two.
pub open spec fn unpadded_encoded_len(n: nat) -> nat {
    4 * (n / 3) + if n % 3 == 0 {
        0nat
    } else if n % 3 == 1 {
        2nat
    } else {
        3nat
    }
}

/// Different six-bit values have different characters, all of the URL-safe alphabet.
proof fn lemma_sextet(v: int, w: int)
    requires
        0 <= v < 64,
        0 <= w < 64,
    ensures
        is_url_safe_char(sextet(v)),
        sextet(v) == sextet(w) ==> v == w,
{
}

/// The encoding has the length that the crate computes for unpadded output.
pub proof fn lemma_encoding_len(bytes: Seq<u8>)
    ensures
        base64_url_encoding(bytes).len() == unpadded_encoded_len(bytes.len()),
    decreases bytes.len(),
{
    if bytes.len() >= 3 {
        lemma_encoding_len(bytes.subrange(3, bytes.len() as int));
    }
}

/// The encoding only uses characters of the URL-safe alphabet.
pub proof fn lemma_encoding_url_safe(bytes: Seq<u8>)
    ensures
        forall|i: int|
            0 <= i < base64_url_encoding(bytes).len() ==> is_url_safe_char(
                #[trigger] base64_url_encoding(bytes)[i],
            ),
    decreases bytes.len(),
{
    let e = base64_url_encoding(bytes);
    if bytes.len() >= 1 {
        let a = bytes[0] as int;
        lemma_sextet(a / 4, 0);
        lemma_sextet((a % 4) * 16, 0);
    }
    if bytes.len() >= 2 {
        let a = bytes[0] as int;
        let b = bytes[1] as int;
        lemma_sextet((a % 4) * 16 + b / 16, 0);
        lemma_sextet((b % 16) * 4, 0);
    }
    if bytes.len() >= 3 {
        let a = bytes[0] as int;
        let b = bytes[1] as int;
        let c = bytes[2] as int;
        lemma_sextet((b % 16) * 4 + c / 64, 0);
        lemma_sextet(c % 64, 0);
        let rest = bytes.subrange(3, bytes.len() as int);
        lemma_encoding_url_safe(rest);
        assert forall|i: int| 0 <= i < e.len() implies is_url_safe_char(#[trigger] e[i]) by {
            if i >= 4 {
                assert(e[i] == base64_url_encoding(rest)[i - 4]);
            }
        }
    }
}

/// Different byte strings have different encodings.
pub proof fn lemma_encoding_injective(b1: Seq<u8>, b2: Seq<u8>)
    requires
        base64_url_encoding(b1) == base64_url_encoding(b2),
    ensures
        b1 == b2,
    decreases b1.len(),
{
    let e = base64_url_encoding(b1);
    lemma_encoding_len(b1);
    lemma_encoding_len(b2);
    assert(b1.len() == b2.len());
    let n = b1.len();
    if n >= 1 {
        let (a1, a2) = (b1[0] as int, b2[0] as int);
        lemma_sextet(a1 / 4, a2 / 4);
        assert(e[0] == sextet(a1 / 4) && e[0] == sextet(a2 / 4));
        assert(a1 / 4 == a2 / 4);
        if n == 1 {
            lemma_sextet((a1 % 4) * 16, (a2 % 4) * 16);
            assert(e[1] == sextet((a1 % 4) * 16) && e[1] == sextet((a2 % 4) * 16));
            assert(a1 == a2);
            assert(b1 =~= b2);
        } else {
            let (c1, c2) = (b1[1] as int, b2[1] as int);
            lemma_sextet((a1 % 4) * 16 + c1 / 16, (a2 % 4) * 16 + c2 / 16);
            assert(e[1] == sextet((a1 % 4) * 16 + c1 / 16) && e[1] == sextet(
                (a2 % 4) * 16 + c2 / 16,
            ));
            assert(a1 % 4 == a2 % 4 && c1 / 16 == c2 / 16);
            assert(a1 == a2);
            if n == 2 {
                lemma_sextet((c1 % 16) * 4, (c2 % 16) * 4);
                assert(e[2] == sextet((c1 % 16) * 4) && e[2] == sextet((c2 % 16) * 4));
                assert(c1 == c2);
                assert(b1 =~= b2);
            } else {
                let (d1, d2) = (b1[2] as int, b2[2] as int);
                lemma_sextet((c1 % 16) * 4 + d1 / 64, (c2 % 16) * 4 + d2 / 64);
                lemma_sextet(d1 % 64, d2 % 64);
                assert(e[2] == sextet((c1 % 16) * 4 + d1 / 64) && e[2] == sextet(
                    (c2 % 16) * 4 + d2 / 64,
                ));
                assert(e[3] == sextet(d1 % 64) && e[3] == sextet(d2 % 64));
                assert(c1 == c2);
                assert(d1 == d2);
                let r1 = b1.subrange(3, n as int);
                let r2 = b2.subrange(3, n as int);
                assert(base64_url_encoding(r1) =~= e.subrange(4, e.len() as int));
                assert(base64_url_encoding(r2) =~= base64_url_encoding(b2).subrange(
                    4,
                    e.len() as int,
                ));
                lemma_encoding_injective(r1, r2);
                assert(b1 =~= b2) by {
                    assert forall|i: int| 0 <= i < n implies b1[i] == b2[i] by {
                        if i >= 3 {
                            assert(b1[i] == r1[i - 3]);
                            assert(b2[i] == r2[i - 3]);
                        }
                    }
                }
            }
        }
    } else {
        assert(b1 =~= b2);
    }
}

/// Decoding gives back the bytes that were encoded.
pub proof fn lemma_decoding_inverts_encoding(bytes: Seq<u8>)
    ensures
        base64_url_decoding(base64_url_encoding(bytes)) == Some(bytes),
{
    let text = base64_url_encoding(bytes);
    assert(exists|b: Seq<u8>| #[trigger] base64_url_encoding(b) == text);
    let chosen = choose|b: Seq<u8>| #[trigger] base64_url_encoding(b) == text;
    lemma_encoding_injective(chosen, bytes);
}

#[verifier::external_type_specification]
#[verifier::external_body]
pub struct ExDecodeError(base64::DecodeError);

/// Calls `base64::prelude::BASE64_URL_SAFE_NO_PAD.encode(bytes)`. Claims that the text is
/// the unpadded URL-safe base64 encoding of `bytes`. The bound on the length keeps the
/// crate's own length computation from overflowing, where it would panic.
#[verifier::external_body]
pub(crate) fn encode_url_safe(bytes: &[u8]) -> (text: String)
    requires
        bytes@.len() <= usize::MAX / 2,
    ensures
        text@ == base64_url_encoding(bytes@),
{
    base64::prelude::BASE64_URL_SAFE_NO_PAD.encode(bytes)
}

/// Calls `base64::prelude::BASE64_URL_SAFE_NO_PAD.decode(text)`. Claims that it succeeds
/// exactly on the texts that the encoding writes (this engine refuses padding and set bits
/// past the data in the last character), with the bytes that were encoded.
#[verifier::external_body]
pub(crate) fn decode_url_safe(text: &str) -> (r: Result<Vec<u8>, base64::DecodeError>)
    ensures
        r is Ok <==> base64_url_decoding(text@) is Some,
        r matches Ok(bytes) ==> base64_url_decoding(text@) == Some(bytes@),
{
    base64::prelude::BASE64_URL_SAFE_NO_PAD.decode(text)
}

} // verus!
