//! The salted SHA-1 credential format, `{SSHA}`.
//!
//! A stored credential is the tag `{SSHA}` followed by the base64 text of
//! the SHA-1 digest of password and salt, with the salt appended to the
//! digest so that a consumer can repeat the computation.

use base64::engine::general_purpose::STANDARD;
use base64::Engine;
use rand::Rng;
use sha1::{Digest, Sha1};
use vstd::prelude::*;
use vstd::utf8::encode_utf8;

verus! {

/// The SHA-1 digest of a message.
pub uninterp spec fn sha1_of(message: Seq<u8>) -> Seq<u8>;

/// The text that base64 makes of a byte string, in the standard alphabet
/// and padded with `=` to a multiple of four characters.
pub uninterp spec fn base64_of(bytes: Seq<u8>) -> Seq<char>;

/// The number of characters in the padded base64 text of `n` bytes: four
/// for every three bytes begun.
pub open spec fn base64_len(n: nat) -> nat {
    (n + 2) / 3 * 4
}

/// The bytes that are encoded into a credential: the digest of the
/// password's UTF-8 bytes followed by the salt, then the salt itself.
pub open spec fn ssha_payload(password: Seq<char>, salt: Seq<u8>) -> Seq<u8> {
    sha1_of(encode_utf8(password) + salt) + salt
}

/// The stored credential for a password under a given salt.
pub open spec fn ssha(password: Seq<char>, salt: Seq<u8>) -> Seq<char> {
    "{SSHA}"@ + base64_of(ssha_payload(password, salt))
}

/// Whether a credential text announces itself as salted SHA-1.
pub open spec fn has_ssha_tag(credential: Seq<char>) -> bool {
    "{SSHA}"@.is_prefix_of(credential)
}

/// Every credential of this format starts with its tag, whatever the
/// password and the salt.
pub proof fn lemma_ssha_is_tagged(password: Seq<char>, salt: Seq<u8>)
    ensures
        has_ssha_tag(ssha(password, salt)),
{
    let tag = "{SSHA}"@;
    let rest = base64_of(ssha_payload(password, salt));
    assert((tag + rest).subrange(0, tag.len() as int) =~= tag);
}

/// A credential differs from the password it was made of, unless the
/// password itself reads like a credential of this format.
pub proof fn lemma_ssha_is_not_the_password(password: Seq<char>, salt: Seq<u8>)
    requires
        !has_ssha_tag(password),
    ensures
        ssha(password, salt) != password,
{
    lemma_ssha_is_tagged(password, salt);
}

/// The salt can be read off the payload, where it follows the digest. So
/// payloads made with different salts of one length differ, whatever the
/// passwords.
pub proof fn lemma_payload_keeps_salt(
    password_a: Seq<char>,
    salt_a: Seq<u8>,
    password_b: Seq<char>,
    salt_b: Seq<u8>,
)
    requires
        salt_a.len() == salt_b.len(),
    ensures
        salt_a.is_suffix_of(ssha_payload(password_a, salt_a)),
        salt_a != salt_b ==> ssha_payload(password_a, salt_a) != ssha_payload(password_b, salt_b),
{
    let payload_a = ssha_payload(password_a, salt_a);
    let payload_b = ssha_payload(password_b, salt_b);
    let n = salt_a.len() as int;
    assert(payload_a.subrange(payload_a.len() - n, payload_a.len() as int) =~= salt_a);
    assert(payload_b.subrange(payload_b.len() - n, payload_b.len() as int) =~= salt_b);
}

/// Calls `sha1::Sha1::digest`. Trusted: the result is the SHA-1 digest of
/// the message, which is twenty bytes long whatever the message.
#[verifier::external_body]
fn sha1_digest(message: &[u8]) -> (digest: Vec<u8>)
    ensures
        digest@ == sha1_of(message@),
        digest@.len() == 20,
{
    Sha1::digest(message).to_vec()
}

/// Calls `base64::Engine::encode` on the engine
/// `base64::engine::general_purpose::STANDARD`. Trusted: the result is the
/// padded base64 text of the bytes, four characters for every three bytes
/// begun. The engine panics when that length does not fit in `usize`, so
/// such inputs are left out.
#[verifier::external_body]
fn base64_encode(bytes: &[u8]) -> (text: String)
    requires
        base64_len(bytes@.len()) <= usize::MAX,
    ensures
        text@ == base64_of(bytes@),
        text@.len() == base64_len(bytes@.len()),
{
    STANDARD.encode(bytes)
}

/// Calls `rand::thread_rng` and `rand::Rng::gen` for four bytes. Nothing
/// is promised of the bytes: they differ from call to call. The generator
/// panics if the operating system gives it no seed.
#[verifier::external_body]
pub(crate) fn random_salt() -> (salt: [u8; 4]) {
    rand::thread_rng().gen()
}

/// Appends the four bytes of a salt to a byte vector.
fn append_salt(bytes: &mut Vec<u8>, salt: &[u8; 4])
    ensures
        final(bytes)@ == old(bytes)@ + salt@,
{
    let mut i: usize = 0;
    while i < 4
        invariant
            i <= 4,
            bytes@ == old(bytes)@ + salt@.subrange(0, i as int),
        decreases 4 - i,
    {
        bytes.push(salt[i]);
        i += 1;
        assert(bytes@ =~= old(bytes)@ + salt@.subrange(0, i as int));
    }
    assert(salt@.subrange(0, 4) =~= salt@);
}

/// Hashes a password under a given salt.
///
/// The digest is taken over the password's bytes followed by the salt;
/// the encoded payload is the digest followed by the salt, twenty-four
/// bytes in all, so every credential is thirty-eight characters long.
pub fn ssha_with_salt(password: &str, salt: &[u8; 4]) -> (credential: String)
    ensures
        credential@ == ssha(password@, salt@),
        has_ssha_tag(credential@),
        ssha_payload(password@, salt@).len() == 24,
        credential@.len() == 38,
{
    let mut message = password.as_bytes_vec();
    append_salt(&mut message, salt);
    let mut payload = sha1_digest(message.as_slice());
    append_salt(&mut payload, salt);
    let encoded = base64_encode(payload.as_slice());
    let mut credential = String::from_str("{SSHA}");
    credential.append(encoded.as_str());
    proof {
        reveal_strlit("{SSHA}");
        lemma_ssha_is_tagged(password@, salt@);
    }
    credential
}

/// Hashes a password under a salt drawn for this call.
///
/// The salt is four random bytes, drawn anew for every call, so the
/// credential of one password varies from call to call. Hashing never
/// fails, and the empty password is hashed like any other.
pub fn generate_ssha(password: &str) -> (credential: String)
    ensures
        exists|salt: Seq<u8>| salt.len() == 4 && credential@ == #[trigger] ssha(password@, salt),
        has_ssha_tag(credential@),
        credential@.len() == 38,
{
    let salt = random_salt();
    ssha_with_salt(password, &salt)
}

} // verus!
