//! Scoped ("virtual") key derivation: a restricted sub-key is derived from
//! a parent key and a restriction set without any network round trip, by
//! keyed hashing over the canonical encoding of the restrictions.
//!
//! The derived key is the base64 text of the lower-case hex HMAC-SHA-256
//! tag of the signed payload (keyed by the parent key's bytes) followed by
//! that same payload.

use crate::request::spec_signed_payload;
use crate::request::VirtualKeyRestrictions;
use crate::text::hex_bytes;
use crate::text::opt_string_view;
use hmac::Mac;
use vstd::prelude::*;
use vstd::string::StringSliceAdditionalSpecFns;
use vstd::utf8::encode_utf8;

verus! {

/// An API key: an opaque secret. The type deliberately has no formatting
/// implementations, so its text cannot leak into logs through them; take
/// the field out explicitly where the key must be sent.
#[derive(Clone)]
pub struct ApiKey(pub String);

/// What HMAC-SHA-256 computes: the 32-byte tag for a key and a message.
pub uninterp spec fn hmac_sha256(key: Seq<u8>, msg: Seq<u8>) -> Seq<u8>;

/// Relies on hmac's `Hmac<sha2::Sha256>` (`new_from_slice`, `update`,
/// `finalize`): the HMAC-SHA-256 tag of the message under the key, a
/// function of the two byte strings alone, 32 bytes long. HMAC accepts a
/// key of any length, so `new_from_slice` cannot fail here.
#[verifier::external_body]
fn hmac_sha256_tag(key: &str, msg: &str) -> (r: Vec<u8>)
    ensures
        r@ == hmac_sha256(key.spec_bytes(), msg.spec_bytes()),
        r@.len() == 32,
{
    let mut mac = hmac::Hmac::<sha2::Sha256>::new_from_slice(key.as_bytes())
        .expect("HMAC accepts a key of any length");
    mac.update(msg.as_bytes());
    mac.finalize().into_bytes().to_vec()
}

/// Relies on `hex::encode`: two lower-case hexadecimal digits per byte,
/// high nibble first.
#[verifier::external_body]
fn hex_encode(bytes: &Vec<u8>) -> (r: String)
    ensures
        r@ == hex_bytes(bytes@),
{
    hex::encode(bytes.as_slice())
}

/// What `base64::encode` computes: the standard-alphabet, padded base64
/// text of a byte string.
pub uninterp spec fn base64_standard(bytes: Seq<u8>) -> Seq<char>;

/// Relies on `base64::encode` (the standard alphabet, with padding): a
/// function of the input bytes alone; four output characters for every
/// three input bytes, rounded up.
#[verifier::external_body]
fn base64_encode(s: &str) -> (r: String)
    ensures
        r@ == base64_standard(s.spec_bytes()),
        r@.len() == 4 * ((s.spec_bytes().len() + 2) / 3),
{
    base64::encode(s.as_bytes())
}

/// The derived key for a parent key's text and a restriction set's values:
/// the HMAC-SHA-256 tag of the signed payload under the parent key's bytes,
/// as lower-case hex, followed by the payload itself, the whole base64
/// encoded.
pub open spec fn spec_virtual_key(
    parent: Seq<char>,
    token: Option<Seq<char>>,
    valid_until: Option<i64>,
) -> Seq<char> {
    let payload = spec_signed_payload(token, valid_until);
    let tag = hmac_sha256(encode_utf8(parent), encode_utf8(payload));
    base64_standard(encode_utf8(hex_bytes(tag) + payload))
}

/// Law: key derivation is deterministic. The derived key is a function of
/// the parent key's text and the restriction values alone, so two
/// derivations from equal inputs give equal keys.
pub proof fn lemma_virtual_key_deterministic(
    parent: Seq<char>,
    a: VirtualKeyRestrictions,
    b: VirtualKeyRestrictions,
)
    requires
        opt_string_view(a.user_token) == opt_string_view(b.user_token),
        a.valid_until == b.valid_until,
    ensures
        spec_virtual_key(parent, opt_string_view(a.user_token), a.valid_until) == spec_virtual_key(
            parent,
            opt_string_view(b.user_token),
            b.valid_until,
        ),
{
}

impl ApiKey {
    /// Derives a virtual key: an independent credential restricted by the
    /// given restriction set, generated without contacting the service.
    /// Sub-keys may be derived from any non-admin key.
    pub fn generate_virtual_key(&self, restrictions: &VirtualKeyRestrictions) -> (r: ApiKey)
        ensures
            r.0@ == spec_virtual_key(
                self.0@,
                opt_string_view(restrictions.user_token),
                restrictions.valid_until,
            ),
    {
        let payload = restrictions.signed_payload();
        let tag = hmac_sha256_tag(self.0.as_str(), payload.as_str());
        let mut combined = hex_encode(&tag);
        combined.append(payload.as_str());
        let encoded = base64_encode(combined.as_str());
        ApiKey(encoded)
    }
}

} // verus!
