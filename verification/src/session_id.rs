//! Fresh random session identifiers.
use crate::base64url::{
    base64_url_decoding, base64_url_encoding, encode_url_safe, is_url_safe_char,
    lemma_decoding_inverts_encoding, lemma_encoding_len, lemma_encoding_url_safe,
};
use rand::Rng;
use vstd::prelude::*;

verus! {

/// The number of random bytes behind a session identifier.
pub const SESSION_ID_BYTES: usize = 32;

/// Whether `id` has the shape of a generated session identifier: the URL-safe base64 text,
/// without padding, of 32 bytes. Such a text has 43 characters of the URL-safe alphabet.
pub open spec fn is_session_id(id: Seq<char>) -> bool {
    exists|b: Seq<u8>| b.len() == 32 && id == #[trigger] base64_url_encoding(b)
}

/// A session identifier decodes back to the 32 bytes it was made of, so the same
/// decoding that reads the cookie key reads it.
pub proof fn lemma_session_id_decodes(id: Seq<char>)
    requires
        is_session_id(id),
    ensures
        base64_url_decoding(id) matches Some(b) && b.len() == 32 && base64_url_encoding(b) == id,
{
    let b = choose|b: Seq<u8>| b.len() == 32 && id == #[trigger] base64_url_encoding(b);
    lemma_decoding_inverts_encoding(b);
}

/// Calls `rand::thread_rng().gen::<[u8; 32]>()`. The bytes come from the thread's random
/// number generator: nothing is claimed of their values.
#[verifier::external_body]
fn random_bytes() -> (bytes: [u8; 32]) {
    rand::thread_rng().gen::<[u8; 32]>()
}

/// The session identifier made of the 32 bytes `bytes`: their URL-safe base64 text
/// without padding.
pub fn session_id_of(bytes: &[u8; 32]) -> (id: String)
    ensures
        id@ == base64_url_encoding(bytes@),
        is_session_id(id@),
{
    let id = encode_url_safe(bytes.as_slice());
    assert(bytes@.len() == 32);
    id
}

/// A fresh session identifier: 32 random bytes in URL-safe base64 without padding.
pub fn generate_session_id() -> (id: String)
    ensures
        is_session_id(id@),
        id@.len() == 43,
        forall|i: int| 0 <= i < id@.len() ==> is_url_safe_char(#[trigger] id@[i]),
{
    let bytes = random_bytes();
    let id = session_id_of(&bytes);
    assert(bytes@.len() == 32);
    proof {
        lemma_encoding_len(bytes@);
        lemma_encoding_url_safe(bytes@);
    }
    assert(is_session_id(id@)) by {
        assert(id@ == base64_url_encoding(bytes@));
    }
    id
}

} // verus!
