use vstd::prelude::*;
use vstd::string::StringSliceAdditionalSpecFns;
use base64::Engine;
use crate::entropy::{random_alphanumeric, TokenSourceFailure};
use crate::base64url::{base64_url_unpadded, is_alphanumeric, is_url_safe_base64, lemma_encoding_shape, unpadded_len};

verus! {

/// The bytes of a text made of ASCII characters.
pub open spec fn ascii_bytes(t: Seq<char>) -> Seq<u8> {
    t.map_values(|c: char| c as u8)
}

/// Encodes `data` with `URL_SAFE_NO_PAD` of the `base64` crate, which gives
/// the unpadded URL-safe base64 encoding that `base64_url_unpadded` spells
/// out. The call panics only when the encoded length overflows `usize`,
/// which `requires` excludes.
#[verifier::external_body]
fn encode_base64_url_unpadded(data: &[u8]) -> (r: String)
    requires
        unpadded_len(data@.len()) <= usize::MAX,
    ensures
        r@ == base64_url_unpadded(data@),
{
    base64::engine::general_purpose::URL_SAFE_NO_PAD.encode(data)
}

/// The number of random characters behind a token.
pub const TOKEN_SOURCE_LEN: usize = 32;

/// The token made from the text `raw`: the unpadded URL-safe base64
/// encoding of its UTF-8 bytes.
pub fn encode_token(raw: &str) -> (r: String)
    requires
        unpadded_len(raw.spec_bytes().len()) <= usize::MAX,
    ensures
        r@ == base64_url_unpadded(raw.spec_bytes()),
{
    let bytes: &[u8] = raw.as_bytes();
    encode_base64_url_unpadded(bytes)
}

/// A fresh access token: 32 random ASCII letters and digits, encoded with
/// unpadded URL-safe base64; the failure of the system's random source when it
/// could not seed the generator.
pub fn generate_secure_token() -> (r: Result<String, TokenSourceFailure>)
    ensures
        r matches Ok(tok) ==> {
            &&& exists|t: Seq<char>|
                #![trigger base64_url_unpadded(ascii_bytes(t))]
                t.len() == TOKEN_SOURCE_LEN && (forall|i: int| 0 <= i < t.len() ==> is_alphanumeric(#[trigger] t[i]))
                    && tok@ == base64_url_unpadded(ascii_bytes(t))
            &&& tok@.len() == 43
            &&& forall|i: int| 0 <= i < tok@.len() ==> is_url_safe_base64(#[trigger] tok@[i])
        },
{
    match random_alphanumeric(TOKEN_SOURCE_LEN) {
        Ok(drawn) => {
            let text: &str = drawn.as_str();
            assert(vstd::string::is_ascii(text));
            proof {
                vstd::string::is_ascii_spec_bytes(text);
                assert(text.spec_bytes() =~= ascii_bytes(drawn@));
            }
            let tok = encode_token(text);
            proof {
                lemma_encoding_shape(ascii_bytes(drawn@));
            }
            Ok(tok)
        },
        Err(failure) => Err(failure),
    }
}

} // verus!
