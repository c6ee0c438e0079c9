//! Resource identifiers for legacy ARKs: a name-based (version 5) UUID of the
//! legacy resource identifier, written in base64url without padding.
use vstd::prelude::*;

use crate::check_digit::alphabet_char;
use crate::errors::ArkUrlInfoResult;
use crate::ports::UuidGenerationPort;

verus! {

/// The namespace of legacy resource UUIDs, `cace8b00-717e-50d5-bcb9-486f39d733a2`.
pub const LEGACY_UUID_NAMESPACE: [u8; 16] = [
    0xca,
    0xce,
    0x8b,
    0x00,
    0x71,
    0x7e,
    0x50,
    0xd5,
    0xbc,
    0xb9,
    0x48,
    0x6f,
    0x39,
    0xd7,
    0x33,
    0xa2,
];

/// The 16 bytes of the version 5 UUID of `name` in `namespace`.
pub uninterp spec fn uuid_v5_of(namespace: Seq<u8>, name: Seq<u8>) -> Seq<u8>;

/// Relies on `uuid::Uuid::new_v5` (through `Uuid::from_bytes` and
/// `Uuid::as_bytes`): the name-based SHA-1 UUID of `name` in `namespace`, 16 bytes.
#[verifier::external_body]
fn uuid_v5_bytes(namespace: [u8; 16], name: &[u8]) -> (r: Vec<u8>)
    ensures
        r@ == uuid_v5_of(namespace@, name@),
        r@.len() == 16,
{
    uuid::Uuid::new_v5(&uuid::Uuid::from_bytes(namespace), name).as_bytes().to_vec()
}

/// Base64url without padding: each group of three bytes gives four characters
/// of `A-Z a-z 0-9 - _`; a last group of two bytes gives three, of one byte two.
pub open spec fn base64url(b: Seq<u8>) -> Seq<char>
    decreases b.len(),
{
    if b.len() == 0 {
        Seq::empty()
    } else if b.len() == 1 {
        let n = b[0] as int * 16;
        seq![alphabet_char(n / 64), alphabet_char(n % 64)]
    } else if b.len() == 2 {
        let n = (b[0] as int * 256 + b[1] as int) * 4;
        seq![alphabet_char(n / 4096), alphabet_char(n / 64 % 64), alphabet_char(n % 64)]
    } else {
        let n = b[0] as int * 65536 + b[1] as int * 256 + b[2] as int;
        seq![
            alphabet_char(n / 262144),
            alphabet_char(n / 4096 % 64),
            alphabet_char(n / 64 % 64),
            alphabet_char(n % 64),
        ] + base64url(b.skip(3))
    }
}

/// Relies on base64's `Engine::encode` with the `URL_SAFE_NO_PAD` engine:
/// RFC 4648 base64url, without padding.
#[verifier::external_body]
fn base64url_encode(bytes: &[u8]) -> (r: String)
    ensures
        r@ == base64url(bytes@),
{
    base64::Engine::encode(&base64::engine::general_purpose::URL_SAFE_NO_PAD, bytes)
}

/// The current-style resource identifier of a legacy resource identifier.
pub open spec fn legacy_resource_uuid_of(legacy_resource_id: Seq<char>) -> Seq<char> {
    base64url(uuid_v5_of(LEGACY_UUID_NAMESPACE@, vstd::utf8::encode_utf8(legacy_resource_id)))
}

/// Derives the current-style resource identifier of a legacy resource identifier.
pub fn legacy_resource_uuid(legacy_resource_id: &str) -> (r: String)
    ensures
        r@ == legacy_resource_uuid_of(legacy_resource_id@),
{
    let digest = uuid_v5_bytes(LEGACY_UUID_NAMESPACE, legacy_resource_id.as_bytes());
    base64url_encode(digest.as_slice())
}

/// UUID generation port over [`legacy_resource_uuid`].
pub struct UuidGenerationAdapter;

impl UuidGenerationPort for UuidGenerationAdapter {
    open spec fn v5_spec(&self, input: Seq<char>) -> Result<Seq<char>, crate::errors::ErrView> {
        Ok(legacy_resource_uuid_of(input))
    }

    fn generate_v5_uuid(&self, input: &str) -> ArkUrlInfoResult<String> {
        Ok(legacy_resource_uuid(input))
    }
}

} // verus!
