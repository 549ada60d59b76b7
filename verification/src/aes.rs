//! The credential vault: passwords are sealed under a key derived from the
//! machine's hardware address, so that a stored token can be opened again on
//! the machine that sealed it and nowhere else.
//!
//! A token is the base64 text of the AES-256 blocks, in electronic-codebook
//! mode, of the password's UTF-8 bytes with block padding added.

use base64::Engine;
use crypto::aes::ecb_decryptor;
use crypto::aes::ecb_encryptor;
use crypto::aes::KeySize;
use crypto::blockmodes::NoPadding;
use crypto::buffer::BufferResult;
use crypto::buffer::ReadBuffer;
use crypto::buffer::RefReadBuffer;
use crypto::buffer::RefWriteBuffer;
use crypto::buffer::WriteBuffer;
use vstd::prelude::*;
use vstd::string::StringSliceAdditionalSpecFns;
use vstd::utf8::decode_utf8;
use vstd::utf8::encode_utf8;
use vstd::utf8::encode_utf8_decode_utf8;
use vstd::utf8::encode_utf8_valid_utf8;
use vstd::utf8::valid_utf8;

verus! {

/// The error of the block cipher.
#[verifier::external_type_specification]
#[verifier::external_body]
pub struct ExSymmetricCipherError(crypto::symmetriccipher::SymmetricCipherError);

/// The error of the base64 decoder.
#[verifier::external_type_specification]
#[verifier::external_body]
pub struct ExDecodeError(base64::DecodeError);

/// The error of the hardware address lookup.
#[verifier::external_type_specification]
#[verifier::external_body]
pub struct ExMacAddressError(mac_address::MacAddressError);

/// The error of the conversion from bytes to text.
#[verifier::external_type_specification]
#[verifier::external_body]
pub struct ExFromUtf8Error(std::string::FromUtf8Error);

/// The number of bytes in a block of the cipher.
pub const BLOCK_LEN: usize = 16;

/// The number of bytes in a key of the cipher.
pub const KEY_LEN: usize = 32;

/// The number of bytes in a hardware address.
pub const ADDRESS_LEN: usize = 6;

/// Why the vault could not seal or open.
#[derive(Debug, Clone, Copy, PartialEq, Eq)]
pub enum VaultError {
    /// The machine reported no hardware address to derive the key from.
    KeyUnavailable,
    /// The token is no base64 text.
    Encoding,
    /// The token does not hold a whole number of cipher blocks.
    Length,
    /// The blocks do not end in block padding under this key.
    Padding,
    /// The bytes under the padding are no UTF-8 text.
    Text,
}

/// The AES-256 blocks of `blocks` under `key` in electronic-codebook mode,
/// without padding, as `crypto::aes::ecb_encryptor` computes them.
pub uninterp spec fn ecb_encrypted(key: Seq<u8>, blocks: Seq<u8>) -> Seq<u8>;

/// The bytes that the AES-256 blocks `blocks` stand for under `key` in
/// electronic-codebook mode, without padding, as
/// `crypto::aes::ecb_decryptor` computes them.
pub uninterp spec fn ecb_decrypted(key: Seq<u8>, blocks: Seq<u8>) -> Seq<u8>;

/// The base64 text of `bytes` in the standard alphabet with padding, as
/// `base64::engine::general_purpose::STANDARD` encodes them.
pub uninterp spec fn base64_encoded(bytes: Seq<u8>) -> Seq<char>;

/// The bytes that the base64 text `text` stands for in the standard
/// alphabet with padding, where
/// `base64::engine::general_purpose::STANDARD` accepts it.
pub uninterp spec fn base64_decoded(text: Seq<char>) -> Option<Seq<u8>>;

/// Calls `mac_address::get_mac_address` and hands out the six bytes of the
/// address it found. Nothing is claimed of the outcome: it depends on the
/// machine.
#[verifier::external_body]
fn hardware_address() -> (r: Result<Option<[u8; 6]>, mac_address::MacAddressError>) {
    match mac_address::get_mac_address() {
        Ok(Some(address)) => Ok(Some(address.bytes())),
        Ok(None) => Ok(None),
        Err(e) => Err(e),
    }
}

/// Runs the encryptor of `crypto::aes::ecb_encryptor` for 256-bit keys
/// without padding over `blocks`. Trusted: it fails exactly on an input that
/// is no whole number of blocks; its output is as long as its input and is
/// the named result, which the decryptor under the same key turns back into
/// the input.
#[verifier::external_body]
fn ecb_encrypt(key: &[u8; 32], blocks: &[u8]) -> (r: Result<
    Vec<u8>,
    crypto::symmetriccipher::SymmetricCipherError,
>)
    ensures
        r is Ok <==> blocks@.len() % 16 == 0,
        r matches Ok(v) ==> v@ == ecb_encrypted(key@, blocks@) && v@.len() == blocks@.len()
            && ecb_decrypted(key@, v@) == blocks@,
{
    let mut cipher = ecb_encryptor(KeySize::KeySize256, key, NoPadding);
    let mut out = Vec::new();
    let mut input = RefReadBuffer::new(blocks);
    let mut chunk = [0u8; 4096];
    let mut output = RefWriteBuffer::new(&mut chunk);
    loop {
        let state = cipher.encrypt(&mut input, &mut output, true)?;
        out.extend_from_slice(output.take_read_buffer().take_remaining());
        if let BufferResult::BufferUnderflow = state {
            return Ok(out);
        }
    }
}

/// Runs the decryptor of `crypto::aes::ecb_decryptor` for 256-bit keys
/// without padding over `blocks`. Trusted: it fails exactly on an input that
/// is no whole number of blocks; its output is as long as its input and is
/// the named result.
#[verifier::external_body]
fn ecb_decrypt(key: &[u8; 32], blocks: &[u8]) -> (r: Result<
    Vec<u8>,
    crypto::symmetriccipher::SymmetricCipherError,
>)
    ensures
        r is Ok <==> blocks@.len() % 16 == 0,
        r matches Ok(v) ==> v@ == ecb_decrypted(key@, blocks@) && v@.len() == blocks@.len(),
{
    let mut cipher = ecb_decryptor(KeySize::KeySize256, key, NoPadding);
    let mut out = Vec::new();
    let mut input = RefReadBuffer::new(blocks);
    let mut chunk = [0u8; 4096];
    let mut output = RefWriteBuffer::new(&mut chunk);
    loop {
        let state = cipher.decrypt(&mut input, &mut output, true)?;
        out.extend_from_slice(output.take_read_buffer().take_remaining());
        if let BufferResult::BufferUnderflow = state {
            return Ok(out);
        }
    }
}

/// Calls `encode` of `base64::engine::general_purpose::STANDARD`. Trusted:
/// the text is the named result, and the same engine decodes it to `bytes`
/// again.
#[verifier::external_body]
fn base64_encode(bytes: &[u8]) -> (r: String)
    ensures
        r@ == base64_encoded(bytes@),
        base64_decoded(r@) == Some(bytes@),
{
    base64::engine::general_purpose::STANDARD.encode(bytes)
}

/// Calls `decode` of `base64::engine::general_purpose::STANDARD`. Trusted:
/// the bytes are the named result, and an error means that the engine
/// accepts no such text.
#[verifier::external_body]
fn base64_decode(text: &str) -> (r: Result<Vec<u8>, base64::DecodeError>)
    ensures
        match r {
            Ok(bytes) => base64_decoded(text@) == Some(bytes@),
            Err(_) => base64_decoded(text@) is None,
        },
{
    base64::engine::general_purpose::STANDARD.decode(text)
}

/// Calls `String::from_utf8`. Trusted: it succeeds exactly on valid UTF-8,
/// and the text is then what the bytes decode to.
#[verifier::external_body]
fn text_of(bytes: Vec<u8>) -> (r: Result<String, std::string::FromUtf8Error>)
    ensures
        match r {
            Ok(text) => valid_utf8(bytes@) && text@ == decode_utf8(bytes@),
            Err(_) => !valid_utf8(bytes@),
        },
{
    String::from_utf8(bytes)
}

/// The key that belongs to a hardware address: the address, then zeros up
/// to the length of a key.
pub open spec fn key_of(address: Seq<u8>) -> Seq<u8> {
    Seq::new(KEY_LEN as nat, |i: int| if i < address.len() { address[i] } else { 0u8 })
}

/// Derives the key of the machine with hardware address `address`.
pub fn derive_key(address: &[u8; 6]) -> (key: [u8; 32])
    ensures
        key@ == key_of(address@),
{
    let mut key = [0u8; 32];
    let mut i: usize = 0;
    while i < 6
        invariant
            i <= 6,
            forall|j: int| 0 <= j < i ==> key@[j] == address@[j],
            forall|j: int| i <= j < 32 ==> key@[j] == 0u8,
        decreases 6 - i,
    {
        key[i] = address[i];
        i = i + 1;
    }
    assert(key@ =~= key_of(address@));
    key
}

/// The key for a hardware address that was looked up, or `KeyUnavailable`
/// where the machine reported none.
pub fn key_for(found: Option<[u8; 6]>) -> (r: Result<[u8; 32], VaultError>)
    ensures
        match r {
            Ok(key) => found is Some && key@ == key_of(found->0@),
            Err(e) => found is None && e == VaultError::KeyUnavailable,
        },
{
    match found {
        Some(address) => Ok(derive_key(&address)),
        None => Err(VaultError::KeyUnavailable),
    }
}

/// The key of this machine. It fails, and then with `KeyUnavailable`,
/// where the machine reports no hardware address or cannot be asked for
/// one; a key that comes back belongs to some hardware address.
pub fn gen_key() -> (r: Result<[u8; 32], VaultError>)
    ensures
        match r {
            Ok(key) => exists|address: Seq<u8>|
                address.len() == ADDRESS_LEN && key@ == key_of(address),
            Err(e) => e == VaultError::KeyUnavailable,
        },
{
    match hardware_address() {
        Ok(found) => {
            let r = key_for(found);
            proof {
                if let Ok(key) = r {
                    let address = found->0@;
                    assert(address.len() == ADDRESS_LEN && key@ == key_of(address));
                }
            }
            r
        },
        Err(_) => Err(VaultError::KeyUnavailable),
    }
}

/// A key as plain bytes, or the reason why there is none.
pub open spec fn key_view(key: Result<[u8; 32], VaultError>) -> Result<Seq<u8>, VaultError> {
    match key {
        Ok(bytes) => Ok(bytes@),
        Err(e) => Err(e),
    }
}

/// What opening `token` gives under a key that may be missing.
pub open spec fn opened_under(key: Result<Seq<u8>, VaultError>, token: Seq<char>) -> Result<
    Seq<char>,
    VaultError,
> {
    match key {
        Ok(bytes) => opened(bytes, token),
        Err(e) => Err(e),
    }
}

/// The number of padding bytes that follow `n` bytes of data: between 1 and
/// the length of a block, filling the last block.
pub open spec fn padding_len(n: nat) -> int {
    BLOCK_LEN - n % (BLOCK_LEN as nat)
}

/// `data` with block padding: every padding byte holds the number of
/// padding bytes.
pub open spec fn padded(data: Seq<u8>) -> Seq<u8> {
    data + Seq::new(padding_len(data.len()) as nat, |i: int| padding_len(data.len()) as u8)
}

/// `blocks` ends in block padding: its last byte `n` lies between 1 and the
/// length of a block, and the last `n` bytes all hold `n`.
pub open spec fn well_padded(blocks: Seq<u8>) -> bool {
    &&& blocks.len() > 0
    &&& 1 <= blocks.last() <= BLOCK_LEN
    &&& blocks.last() <= blocks.len()
    &&& forall|i: int|
        blocks.len() - blocks.last() <= i < blocks.len() ==> #[trigger] blocks[i] == blocks.last()
}

/// The data under the block padding of `blocks`, where it is well padded.
pub open spec fn unpadded(blocks: Seq<u8>) -> Option<Seq<u8>> {
    if well_padded(blocks) {
        Some(blocks.take(blocks.len() - blocks.last()))
    } else {
        None
    }
}

/// Padded data is a whole number of blocks, and removing the padding gives
/// the data back.
pub proof fn lemma_padding_round_trip(data: Seq<u8>)
    ensures
        padded(data).len() % (BLOCK_LEN as nat) == 0,
        padded(data).len() > data.len(),
        unpadded(padded(data)) == Some(data),
{
    let n = padding_len(data.len());
    let p = padded(data);
    assert(1 <= n <= 16);
    assert(p.len() == data.len() + n);
    assert(p.last() == n as u8);
    assert(p.take(p.len() - n) =~= data);
}

/// Adds block padding to `data`.
pub fn pad(data: &[u8]) -> (r: Vec<u8>)
    ensures
        r@ == padded(data@),
{
    let n: usize = BLOCK_LEN - data.len() % BLOCK_LEN;
    let mut r: Vec<u8> = Vec::new();
    r.extend_from_slice(data);
    let mut i: usize = 0;
    while i < n
        invariant
            i <= n,
            n == padding_len(data@.len()),
            1 <= n <= 16,
            r@ == data@ + Seq::new(i as nat, |j: int| n as u8),
        decreases n - i,
    {
        r.push(n as u8);
        i = i + 1;
        assert(r@ =~= data@ + Seq::new(i as nat, |j: int| n as u8));
    }
    r
}

/// Removes the block padding of `blocks`, or gives `None` where they do not
/// end in any.
pub fn unpad(blocks: Vec<u8>) -> (r: Option<Vec<u8>>)
    ensures
        match r {
            Some(data) => unpadded(blocks@) == Some(data@),
            None => unpadded(blocks@) is None,
        },
{
    let len = blocks.len();
    if len == 0 {
        return None;
    }
    let last = blocks[len - 1];
    let n = last as usize;
    if n < 1 || n > BLOCK_LEN || n > len {
        return None;
    }
    let mut i: usize = len - n;
    while i < len
        invariant
            len == blocks@.len(),
            n == last,
            1 <= n <= len,
            len - n <= i <= len,
            last == blocks@.last(),
            forall|j: int| len - n <= j < i ==> #[trigger] blocks@[j] == last,
        decreases len - i,
    {
        if blocks[i] != last {
            assert(blocks@[i as int] != blocks@.last());
            return None;
        }
        i = i + 1;
    }
    let mut data = blocks;
    data.truncate(len - n);
    Some(data)
}

/// The token that seals `text` under `key`.
pub open spec fn sealed(key: Seq<u8>, text: Seq<char>) -> Seq<char> {
    base64_encoded(ecb_encrypted(key, padded(encode_utf8(text))))
}

/// What opening `token` under `key` gives: the text it seals, or the first
/// reason why it seals none.
pub open spec fn opened(key: Seq<u8>, token: Seq<char>) -> Result<Seq<char>, VaultError> {
    match base64_decoded(token) {
        None => Err(VaultError::Encoding),
        Some(blocks) => if blocks.len() % (BLOCK_LEN as nat) != 0 {
            Err(VaultError::Length)
        } else {
            match unpadded(ecb_decrypted(key, blocks)) {
                None => Err(VaultError::Padding),
                Some(bytes) => if valid_utf8(bytes) {
                    Ok(decode_utf8(bytes))
                } else {
                    Err(VaultError::Text)
                },
            }
        },
    }
}

/// Seals `data` under `key`. The token is the named one, and opening it
/// under the same key gives `data` back.
pub fn encrypt_with_key(key: &[u8; 32], data: &str) -> (token: String)
    ensures
        token@ == sealed(key@, data@),
        opened(key@, token@) == Ok::<Seq<char>, VaultError>(data@),
{
    let bytes = pad(data.as_bytes());
    proof {
        lemma_padding_round_trip(data.spec_bytes());
        encode_utf8_valid_utf8(data@);
        encode_utf8_decode_utf8(data@);
    }
    match ecb_encrypt(key, bytes.as_slice()) {
        Ok(blocks) => base64_encode(blocks.as_slice()),
        Err(_) => vstd::pervasive::unreached(),
    }
}

/// Opens `token` under `key`.
pub fn decrypt_with_key(key: &[u8; 32], token: &str) -> (r: Result<String, VaultError>)
    ensures
        match r {
            Ok(text) => opened(key@, token@) == Ok::<Seq<char>, VaultError>(text@),
            Err(e) => opened(key@, token@) == Err::<Seq<char>, VaultError>(e),
        },
{
    let blocks = match base64_decode(token) {
        Ok(blocks) => blocks,
        Err(_) => {
            return Err(VaultError::Encoding);
        },
    };
    let plain = match ecb_decrypt(key, blocks.as_slice()) {
        Ok(plain) => plain,
        Err(_) => {
            return Err(VaultError::Length);
        },
    };
    let bytes = match unpad(plain) {
        Some(bytes) => bytes,
        None => {
            return Err(VaultError::Padding);
        },
    };
    match text_of(bytes) {
        Ok(text) => Ok(text),
        Err(_) => Err(VaultError::Text),
    }
}

/// Opens `token` under `key`, or hands on the reason why there is no key.
pub fn decrypt_under(key: &Result<[u8; 32], VaultError>, token: &str) -> (r: Result<
    String,
    VaultError,
>)
    ensures
        match r {
            Ok(text) => opened_under(key_view(*key), token@) == Ok::<Seq<char>, VaultError>(text@),
            Err(e) => opened_under(key_view(*key), token@) == Err::<Seq<char>, VaultError>(e),
        },
{
    match key {
        Ok(bytes) => decrypt_with_key(bytes, token),
        Err(e) => Err(*e),
    }
}

/// Seals `data` under the key of this machine: the token is the seal under
/// the key of some hardware address and opens under that key. It fails,
/// and then with `KeyUnavailable`, where the machine has no key.
pub fn encrypt(data: &str) -> (r: Result<String, VaultError>)
    ensures
        match r {
            Ok(token) => exists|address: Seq<u8>|
                address.len() == ADDRESS_LEN && token@ == sealed(key_of(address), data@)
                    && opened(key_of(address), token@) == Ok::<Seq<char>, VaultError>(data@),
            Err(e) => e == VaultError::KeyUnavailable,
        },
{
    match gen_key() {
        Ok(key) => Ok(encrypt_with_key(&key, data)),
        Err(e) => Err(e),
    }
}

/// Opens `encrypted_data` under the key of this machine: whatever comes
/// back is what opening under the key of some hardware address gives, unless
/// the machine reports none.
pub fn decrypt(encrypted_data: &str) -> (r: Result<String, VaultError>)
    ensures
        match r {
            Ok(text) => exists|address: Seq<u8>|
                address.len() == ADDRESS_LEN && opened(key_of(address), encrypted_data@) == Ok::<
                    Seq<char>,
                    VaultError,
                >(text@),
            Err(e) => e == VaultError::KeyUnavailable || exists|address: Seq<u8>|
                address.len() == ADDRESS_LEN && opened(key_of(address), encrypted_data@) == Err::<
                    Seq<char>,
                    VaultError,
                >(e),
        },
{
    match gen_key() {
        Ok(key) => decrypt_with_key(&key, encrypted_data),
        Err(e) => Err(e),
    }
}

} // verus!
