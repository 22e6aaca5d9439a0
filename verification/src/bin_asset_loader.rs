//! Binary assets, optionally sealed with a password, read before they are decoded.
use vstd::prelude::*;
use vstd::string::*;
use crate::crypt::{decrypt_bytes, decrypted};

verus! {

/// Why the bytes of an asset could not be opened.
#[derive(PartialEq, Eq, Structural, Debug)]
pub enum PayloadError {
    /// The bytes did not open with the password.
    Decrypt,
}

/// The file extensions that binary assets have.
pub const BIN_ASSET_EXTENSIONS: [&'static str; 2] = ["bin", "dat"];

/// The bytes to decode for an asset read as `bytes`: as they are when there is no password,
/// else what they open to with `encrypt_key`.
pub fn asset_payload(bytes: Vec<u8>, encrypt_key: &str) -> (r: Result<Vec<u8>, PayloadError>)
    ensures
        encrypt_key@.len() == 0 ==> r == Ok::<Vec<u8>, PayloadError>(bytes),
        encrypt_key@.len() != 0 ==> match decrypted(bytes@, encrypt_key.spec_bytes()) {
            Some(v) => r matches Ok(w) && w@ == v,
            None => r == Err::<Vec<u8>, PayloadError>(PayloadError::Decrypt),
        },
{
    if encrypt_key.is_empty() {
        Ok(bytes)
    } else {
        match decrypt_bytes(bytes.as_slice(), encrypt_key.as_bytes()) {
            Ok(v) => Ok(v),
            Err(_) => Err(PayloadError::Decrypt),
        }
    }
}

} // verus!
