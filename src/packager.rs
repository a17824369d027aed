use vstd::prelude::*;
use std::io::Write;
use aes_gcm::aead::{Aead, KeyInit};
use rand::Rng;
use crate::error::AnalyzerError;

verus! {

/// Brotli's quality setting that compresses the most.
pub const MAX_QUALITY: u32 = 11;

/// Base-2 logarithm of the compression window.
pub const WINDOW_BITS: u32 = 22;

/// Length of a key, in bytes.
pub const KEY_LEN: usize = 32;

/// Length of the nonce, in bytes.
pub const NONCE_LEN: usize = 12;

/// Length of the authentication tag appended to each ciphertext, in bytes.
pub const TAG_LEN: usize = 16;

/// The longest plaintext that AES-GCM accepts, in bytes.
pub const MAX_PLAINTEXT: u64 = 0x10_0000_0000;

/// The brotli stream of `data` at the given quality and window size.
pub uninterp spec fn brotli_of(data: Seq<u8>, quality: u32, lgwin: u32) -> Seq<u8>;

/// AES-256-GCM's ciphertext, tag appended, of `plaintext` under `key` and `nonce`.
pub uninterp spec fn gcm_seal_of(key: Seq<u8>, nonce: Seq<u8>, plaintext: Seq<u8>) -> Seq<u8>;

/// The fixed nonce: twelve zero bytes. It is safe only because no key
/// encrypts more than once.
pub open spec fn zero_nonce() -> Seq<u8> {
    Seq::new(NONCE_LEN as nat, |i: int| 0u8)
}

/// Relies on brotli's `CompressorWriter` writing into a `Vec`: the bytes written
/// are the brotli stream of the input for these settings, and a write fails only
/// where the underlying writer fails, which a `Vec` never does.
#[verifier::external_body]
fn compress(data: &[u8], quality: u32, lgwin: u32) -> (r: Option<Vec<u8>>)
    requires
        quality <= MAX_QUALITY,
        10 <= lgwin <= 24,
    ensures
        r is Some,
        r matches Some(c) ==> c@ == brotli_of(data@, quality, lgwin),
{
    let mut out = Vec::new();
    let params = brotli::enc::BrotliEncoderParams {
        quality: quality as i32,
        lgwin: lgwin as i32,
        ..Default::default()
    };
    let mut w = brotli::CompressorWriter::with_params(&mut out, 4096, &params);
    let written = w.write_all(data).and_then(|_| w.flush());
    drop(w);
    written.ok().map(|_| out)
}

/// Relies on rand's `thread_rng`, a cryptographically secure generator, to fill
/// `len` fresh bytes.
#[verifier::external_body]
fn random_bytes(len: usize) -> (r: Vec<u8>)
    ensures
        r@.len() == len,
{
    let mut bytes = vec![0u8; len];
    rand::thread_rng().fill(&mut bytes[..]);
    bytes
}

/// Relies on aes-gcm's `Aes256Gcm::encrypt`: it fails only on a plaintext longer
/// than `MAX_PLAINTEXT` and otherwise returns the ciphertext with a 16-byte tag.
#[verifier::external_body]
fn gcm_seal(key: &[u8], nonce: &[u8], plaintext: &[u8]) -> (r: Option<Vec<u8>>)
    requires
        key@.len() == KEY_LEN,
        nonce@.len() == NONCE_LEN,
    ensures
        r is None <==> plaintext@.len() > MAX_PLAINTEXT,
        r matches Some(c) ==> c@ == gcm_seal_of(key@, nonce@, plaintext@)
            && c@.len() == plaintext@.len() + TAG_LEN,
{
    let cipher = aes_gcm::Aes256Gcm::new_from_slice(key).expect("key of 32 bytes");
    cipher.encrypt(aes_gcm::Nonce::from_slice(nonce), plaintext).ok()
}

/// Compresses `data` and encrypts it under a fresh random key with the fixed
/// nonce; returns the key and the ciphertext.
pub fn encrypt_data(data: &[u8], quality: u32) -> (r: Result<(Vec<u8>, Vec<u8>), AnalyzerError>)
    requires
        quality <= MAX_QUALITY,
    ensures
        r is Ok <==> brotli_of(data@, quality, WINDOW_BITS).len() <= MAX_PLAINTEXT,
        r matches Ok((key, sealed)) ==> {
            &&& key@.len() == KEY_LEN
            &&& sealed@ == gcm_seal_of(key@, zero_nonce(), brotli_of(data@, quality, WINDOW_BITS))
            &&& sealed@.len() == brotli_of(data@, quality, WINDOW_BITS).len() + TAG_LEN
        },
        r matches Err(e) ==> e is Crypto,
{
    let compressed = match compress(data, quality, WINDOW_BITS) {
        Some(c) => c,
        None => return Err(AnalyzerError::Crypto),
    };
    let key = random_bytes(KEY_LEN);
    let nonce: Vec<u8> = vec![0u8; NONCE_LEN];
    assert(nonce@ =~= zero_nonce());
    match gcm_seal(key.as_slice(), nonce.as_slice(), compressed.as_slice()) {
        Some(sealed) => Ok((key, sealed)),
        None => Err(AnalyzerError::Crypto),
    }
}

} // verus!
