//! Authentication data: API-key and SAML rows, the stored form of an API key
//! (the hex SHA-256 of the key), and the certificate-pinning decision.

use vstd::prelude::*;
use vstd::string::StringSliceAdditionalSpecFns;
use crate::db::DbUuid;
use crate::text::text_eq;
use crate::uuid_text::hex_value;
use sha2::Digest;

verus! {

/// An API key joined with its owner, as the key lookup returns it.
#[derive(Debug)]
pub struct ApiKeyRow {
    pub id: DbUuid,
    pub user_id: DbUuid,
    pub organization_id: DbUuid,
    pub email: String,
    pub role: String,
}

/// A mapping from a SAML group to a team and its default role.
#[derive(Debug)]
pub struct SamlGroupMapping {
    pub id: DbUuid,
    pub saml_group: String,
    pub team_id: DbUuid,
    pub default_role: String,
}

/// The SHA-256 digest of `data` (32 bytes), as `sha2` computes it.
pub uninterp spec fn sha256(data: Seq<u8>) -> Seq<u8>;

/// Calls `<sha2::Sha256 as sha2::Digest>::digest`: the 32-byte SHA-256
/// digest of `data`, a function of `data` alone.
#[verifier::external_body]
fn sha256_digest(data: &[u8]) -> (r: Vec<u8>)
    ensures
        r@ == sha256(data@),
        r@.len() == 32,
{
    sha2::Sha256::digest(data).to_vec()
}

/// The lowercase hexadecimal digit for `n < 16`.
pub open spec fn hex_digit(n: nat) -> char {
    if n < 10 {
        digit_of(n)
    } else if n == 10 {
        'a'
    } else if n == 11 {
        'b'
    } else if n == 12 {
        'c'
    } else if n == 13 {
        'd'
    } else if n == 14 {
        'e'
    } else {
        'f'
    }
}

/// The decimal digit for `n < 10`.
pub open spec fn digit_of(n: nat) -> char {
    crate::text::digit_char(n)
}

/// Lowercase hexadecimal text of `bytes`: two digits per byte, the high
/// nibble first.
pub open spec fn hex_lower(bytes: Seq<u8>) -> Seq<char>
    decreases bytes.len(),
{
    if bytes.len() == 0 {
        Seq::empty()
    } else {
        hex_lower(bytes.drop_last()) + seq![
            hex_digit((bytes.last() / 16) as nat),
            hex_digit((bytes.last() % 16) as nat),
        ]
    }
}

/// Calls `hex::encode`, which writes each byte as two lowercase hexadecimal
/// digits (from `0123456789abcdef`), the high nibble first.
#[verifier::external_body]
fn hex_encode(data: &[u8]) -> (r: String)
    ensures
        r@ == hex_lower(data@),
{
    hex::encode(data)
}

/// The lowercase hexadecimal text of a digest, as keys are stored.
pub fn digest_hex(digest: &Vec<u8>) -> (r: String)
    ensures
        r@ == hex_lower(digest@),
{
    hex_encode(digest.as_slice())
}

/// The stored form of an API key: the lowercase hex of the SHA-256 of its
/// UTF-8 bytes (64 characters).
pub fn api_key_hash(key: &str) -> (r: String)
    ensures
        r@ == hex_lower(sha256(key.spec_bytes())),
        r@.len() == 64,
{
    let digest = sha256_digest(key.as_bytes());
    proof {
        lemma_hex_len(digest@);
    }
    digest_hex(&digest)
}

proof fn lemma_hex_len(bytes: Seq<u8>)
    ensures
        hex_lower(bytes).len() == 2 * bytes.len(),
    decreases bytes.len(),
{
    if bytes.len() > 0 {
        lemma_hex_len(bytes.drop_last());
    }
}

proof fn lemma_hex_digit_reads_back(n: nat)
    requires
        n < 16,
    ensures
        hex_value(hex_digit(n)) == Some(n),
        ('0' <= hex_digit(n) <= '9') || ('a' <= hex_digit(n) <= 'f'),
{
    if n == 0 {
        assert(hex_value(hex_digit(0)) == Some(0nat));
    } else if n == 1 {
        assert(hex_value(hex_digit(1)) == Some(1nat));
    } else if n == 2 {
        assert(hex_value(hex_digit(2)) == Some(2nat));
    } else if n == 3 {
        assert(hex_value(hex_digit(3)) == Some(3nat));
    } else if n == 4 {
        assert(hex_value(hex_digit(4)) == Some(4nat));
    } else if n == 5 {
        assert(hex_value(hex_digit(5)) == Some(5nat));
    } else if n == 6 {
        assert(hex_value(hex_digit(6)) == Some(6nat));
    } else if n == 7 {
        assert(hex_value(hex_digit(7)) == Some(7nat));
    } else if n == 8 {
        assert(hex_value(hex_digit(8)) == Some(8nat));
    } else if n == 9 {
        assert(hex_value(hex_digit(9)) == Some(9nat));
    } else if n == 10 {
        assert(hex_value(hex_digit(10)) == Some(10nat));
    } else if n == 11 {
        assert(hex_value(hex_digit(11)) == Some(11nat));
    } else if n == 12 {
        assert(hex_value(hex_digit(12)) == Some(12nat));
    } else if n == 13 {
        assert(hex_value(hex_digit(13)) == Some(13nat));
    } else if n == 14 {
        assert(hex_value(hex_digit(14)) == Some(14nat));
    } else if n == 15 {
        assert(hex_value(hex_digit(15)) == Some(15nat));
    }
}

/// The hexadecimal text of bytes holds only the digits `0`-`9` and the
/// lowercase letters `a`-`f`, two per byte, and reads back as the bytes:
/// the first of a byte's two digits is its high nibble, the second its low.
pub proof fn law_hex_text_reads_back(bytes: Seq<u8>)
    ensures
        hex_lower(bytes).len() == 2 * bytes.len(),
        forall|i: int| 0 <= i < bytes.len() ==> hex_value(#[trigger] hex_lower(bytes)[2 * i]) == Some((bytes[i] / 16) as nat)
            && hex_value(hex_lower(bytes)[2 * i + 1]) == Some((bytes[i] % 16) as nat),
        forall|k: int| 0 <= k < hex_lower(bytes).len() ==> ('0' <= #[trigger] hex_lower(bytes)[k] <= '9')
            || ('a' <= hex_lower(bytes)[k] <= 'f'),
    decreases bytes.len(),
{
    lemma_hex_len(bytes);
    if bytes.len() > 0 {
        let init = bytes.drop_last();
        let b = bytes.last();
        law_hex_text_reads_back(init);
        lemma_hex_len(init);
        lemma_hex_digit_reads_back((b / 16) as nat);
        lemma_hex_digit_reads_back((b % 16) as nat);
        let h = hex_lower(bytes);
        let hi = hex_lower(init);
        assert(h == hi + seq![hex_digit((b / 16) as nat), hex_digit((b % 16) as nat)]);
        assert forall|i: int| 0 <= i < bytes.len() implies hex_value(#[trigger] h[2 * i]) == Some((bytes[i] / 16) as nat)
            && hex_value(h[2 * i + 1]) == Some((bytes[i] % 16) as nat) by {
            if i < init.len() {
                assert(init[i] == bytes[i]);
                assert(h[2 * i] == hi[2 * i]);
                assert(h[2 * i + 1] == hi[2 * i + 1]);
            } else {
                assert(h[2 * i] == hex_digit((b / 16) as nat));
                assert(h[2 * i + 1] == hex_digit((b % 16) as nat));
            }
        }
        assert forall|k: int| 0 <= k < h.len() implies ('0' <= #[trigger] h[k] <= '9') || ('a' <= h[k] <= 'f') by {
            if k < hi.len() {
                assert(h[k] == hi[k]);
            }
        }
    }
}

/// The external identifier of an organization's local administrator:
/// `local-admin-` followed by the organization's slug.
pub fn local_admin_external_id(slug: &str) -> (r: String)
    ensures
        r@ == "local-admin-"@ + slug@,
{
    let mut id = String::new();
    id.append("local-admin-");
    id.append(slug);
    id
}

/// Whether a presented certificate matches the fingerprint pinned for an
/// agent: only when an active, verified agent was found (`Some`) and a
/// fingerprint is stored for it (`Some`) that equals the presented one.
pub fn certificate_pinned(stored: &Option<Option<String>>, presented: &str) -> (r: bool)
    ensures
        r == (stored matches Some(Some(fp)) && fp@ == presented@),
{
    match stored {
        Some(Some(fp)) => text_eq(fp.as_str(), presented),
        _ => false,
    }
}

} // verus!
