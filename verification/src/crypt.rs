//! Password-based sealing of byte blobs, as done by `simple_crypt`.
use vstd::prelude::*;

verus! {

/// The error that `simple_crypt` reports.
#[verifier::external_type_specification]
#[verifier::external_body]
pub struct ExAnyhowError(anyhow::Error);

/// What `simple_crypt::decrypt` makes of `data` under `password`: the plain bytes, or
/// `None` where it reports an error.
pub uninterp spec fn decrypted(data: Seq<u8>, password: Seq<u8>) -> Option<Seq<u8>>;

/// `simple_crypt::decrypt`. It derives the key with Argon2 from the password and the salt
/// stored in `data`, then opens the AES-GCM-SIV box; nothing in it depends on chance, so
/// the result is a function of the two arguments, named `decrypted`.
#[verifier::external_body]
pub(crate) fn decrypt_bytes(data: &[u8], password: &[u8]) -> (r: Result<Vec<u8>, anyhow::Error>)
    ensures
        match r {
            Ok(v) => decrypted(data@, password@) == Some(v@),
            Err(_) => decrypted(data@, password@) is None,
        },
{
    simple_crypt::decrypt(data, password)
}

/// The most bytes that AES-GCM-SIV seals (`P_MAX`, 2^36).
pub const SEAL_MAX_LEN: u64 = 0x10_0000_0000;

/// `simple_crypt::encrypt`. Salt and nonce are drawn at random, so the bytes are not named;
/// what is claimed: it succeeds for data of at most `SEAL_MAX_LEN` bytes under a password of
/// at most `u32::MAX` bytes (the only limits that AES-GCM-SIV and Argon2 check with its
/// settings), and when it succeeds `simple_crypt::decrypt` with the same password gives back
/// `data`.
#[verifier::external_body]
pub(crate) fn encrypt_bytes(data: &[u8], password: &[u8]) -> (r: Result<Vec<u8>, anyhow::Error>)
    ensures
        data@.len() <= SEAL_MAX_LEN && password@.len() <= u32::MAX ==> r is Ok,
        r matches Ok(v) ==> decrypted(v@, password@) == Some(data@),
{
    simple_crypt::encrypt(data, password)
}

} // verus!
