//! Access tokens: the claims they carry and their HS256 signature.
use vstd::prelude::*;
#[allow(unused_imports)]
use hmac::Mac;
#[allow(unused_imports)]
use jwt::SignWithKey;

verus! {

/// The claims of an access token: the administrator's id and e-mail address.
pub struct TokenClaims {
    pub id: i32,
    pub email: String,
}

/// The JSON Web Token that the `jwt` crate gives for a JSON claims text signed
/// with HMAC-SHA256 under `secret`, its header naming the algorithm only.
pub uninterp spec fn hs256_token(secret: Seq<u8>, claims_json: Seq<char>) -> Seq<char>;

/// Whether `serde_json::value::RawValue::from_string` accepts the text as one JSON
/// value (surrounding whitespace allowed).
pub uninterp spec fn json_text_accepted(text: Seq<char>) -> bool;

/// Signs the JSON text `claims_json` with the `jwt` crate: the key is
/// `hmac::Hmac::<sha2::Sha256>::new_from_slice(secret)` (HMAC takes a key of any
/// length, so this never fails), the claims are the `serde_json` `RawValue` that
/// `RawValue::from_string` makes of the text (the JSON value with surrounding
/// whitespace trimmed), and `jwt::SignWithKey::sign_with_key` gives the token (its
/// header's algorithm is the key's, and serialising and HMAC signing cannot fail).
/// So the result is `None` exactly where `from_string` refuses the text, and
/// otherwise the named token of the secret and the text.
#[verifier::external_body]
pub(crate) fn sign_hs256(secret: &[u8], claims_json: &str) -> (token: Option<String>)
    ensures
        token is Some <==> json_text_accepted(claims_json@),
        token matches Some(t) ==> t@ == hs256_token(secret@, claims_json@),
{
    let key: hmac::Hmac<sha2::Sha256> = hmac::Hmac::new_from_slice(secret).ok()?;
    let claims = serde_json::value::RawValue::from_string(claims_json.to_string()).ok()?;
    claims.sign_with_key(&key).ok()
}

} // verus!
