//! Calls into the cryptography and encoding crates, with the contracts the
//! library relies on.
use vstd::prelude::*;
use vstd::string::StringSliceAdditionalSpecFns;
use aes::cipher::{block_padding::Pkcs7, BlockDecryptMut, BlockEncryptMut, KeyIvInit};
use base64::Engine;
use hmac::Mac;
use sha2::Digest;
use rand::RngCore;

verus! {

/// The lower-case hexadecimal digit for a value below 16.
pub open spec fn hex_digit(n: nat) -> char {
    if n < 10 {
        ((n + 48) as u32) as char
    } else {
        ((n + 87) as u32) as char
    }
}

/// Lower-case hexadecimal encoding of bytes: two digits per byte, high
/// nibble first.
pub open spec fn hex_lower(bytes: Seq<u8>) -> Seq<char>
    decreases bytes.len(),
{
    if bytes.len() == 0 {
        Seq::empty()
    } else {
        hex_lower(bytes.drop_last()) + seq![
            hex_digit((bytes.last() / 16) as nat),
            hex_digit((bytes.last() % 16) as nat),
        ]
    }
}

/// `hex::encode`: lower-case hexadecimal text of the bytes.
#[verifier::external_body]
pub(crate) fn hex_encode(bytes: &[u8]) -> (r: String)
    ensures
        r@ == hex_lower(bytes@),
{
    hex::encode(bytes)
}

/// `n` bytes from the thread-local random generator (`RngCore::fill_bytes`
/// on `rand::thread_rng()`); nothing is known of their values.
#[verifier::external_body]
pub(crate) fn random_bytes(n: usize) -> (r: Vec<u8>)
    ensures
        r@.len() == n,
{
    let mut v = vec![0u8; n];
    rand::thread_rng().fill_bytes(&mut v);
    v
}

/// AES-256-CBC encryption with PKCS#7 padding of `data` under `key` and `iv`.
pub uninterp spec fn aes256_cbc_pkcs7(key: Seq<u8>, iv: Seq<u8>, data: Seq<u8>) -> Seq<u8>;

/// `cbc::Encryptor<aes::Aes256>` with PKCS#7 padding
/// (`encrypt_padded_vec_mut`). PKCS#7 always appends between 1 and 16 bytes
/// to reach a whole number of 16-byte blocks, so the ciphertext has
/// `(len / 16 + 1) * 16` bytes.
#[verifier::external_body]
pub(crate) fn aes256_cbc_encrypt(key: &[u8], iv: &[u8], data: &[u8]) -> (r: Vec<u8>)
    requires
        key@.len() == 32,
        iv@.len() == 16,
    ensures
        r@ == aes256_cbc_pkcs7(key@, iv@, data@),
        r@.len() == (data@.len() / 16 + 1) * 16,
{
    cbc::Encryptor::<aes::Aes256>::new_from_slices(key, iv).unwrap().encrypt_padded_vec_mut::<Pkcs7>(data)
}


/// The value of an ASCII hexadecimal digit (either case).
pub open spec fn hex_value(c: u8) -> Option<u8> {
    if 48 <= c <= 57 {
        Some((c - 48) as u8)
    } else if 97 <= c <= 102 {
        Some((c - 87) as u8)
    } else if 65 <= c <= 70 {
        Some((c - 55) as u8)
    } else {
        None
    }
}

/// Hexadecimal text decoded to bytes: an even number of digits, each pair
/// one byte, high nibble first; `None` for an odd length or a non-digit.
pub open spec fn hex_decoded(text: Seq<u8>) -> Option<Seq<u8>> {
    if text.len() % 2 == 0 && forall|i: int| 0 <= i < text.len() ==> hex_value(#[trigger] text[i]) is Some {
        Some(Seq::new(
            (text.len() / 2) as nat,
            |i: int| (hex_value(text[2 * i])->0 * 16 + hex_value(text[2 * i + 1])->0) as u8,
        ))
    } else {
        None
    }
}

/// `hex::decode` of the text's bytes, the error mapped to `None`.
#[verifier::external_body]
pub(crate) fn hex_decode(text: &str) -> (r: Option<Vec<u8>>)
    ensures
        match r {
            Some(v) => hex_decoded(text.spec_bytes()) == Some(v@),
            None => hex_decoded(text.spec_bytes()) is None,
        },
{
    hex::decode(text).ok()
}

/// The SHA-256 digest of some bytes.
pub uninterp spec fn sha256_digest(data: Seq<u8>) -> Seq<u8>;

/// sha2: `Sha256::digest(data)`, 32 bytes.
#[verifier::external_body]
pub(crate) fn sha256(data: &[u8]) -> (r: Vec<u8>)
    ensures
        r@ == sha256_digest(data@),
        r@.len() == 32,
{
    sha2::Sha256::digest(data).to_vec()
}

/// The HMAC-SHA256 of a message under a key.
pub uninterp spec fn hmac_sha256_tag(key: Seq<u8>, message: Seq<u8>) -> Seq<u8>;

/// hmac: `Hmac::<Sha256>::new_from_slice(key)` (HMAC takes keys of any
/// length), `update(message)`, `finalize().into_bytes()`: 32 bytes.
#[verifier::external_body]
pub(crate) fn hmac_sha256(key: &[u8], message: &[u8]) -> (r: Vec<u8>)
    ensures
        r@ == hmac_sha256_tag(key@, message@),
        r@.len() == 32,
{
    let mut mac = hmac::Hmac::<sha2::Sha256>::new_from_slice(key).unwrap();
    mac.update(message);
    mac.finalize().into_bytes().to_vec()
}

/// subtle: `ConstantTimeEq::ct_eq` on byte slices, converted to `bool`:
/// true exactly when the slices have the same length and bytes.
#[verifier::external_body]
pub(crate) fn ct_eq(a: &[u8], b: &[u8]) -> (r: bool)
    ensures
        r == (a@ == b@),
{
    subtle::ConstantTimeEq::ct_eq(a, b).into()
}

/// The MD5 digest of some bytes.
pub uninterp spec fn md5_digest(data: Seq<u8>) -> Seq<u8>;

/// md-5: `Md5::digest(data)`, the 16-byte MD5 digest.
#[verifier::external_body]
pub(crate) fn md5(data: &[u8]) -> (r: Vec<u8>)
    ensures
        r@ == md5_digest(data@),
        r@.len() == 16,
{
    md5::Md5::digest(data).to_vec()
}

/// The character of a 6-bit value in the standard base64 alphabet
/// (`A`-`Z`, `a`-`z`, `0`-`9`, `+`, `/`).
pub open spec fn base64_char(n: nat) -> char {
    if n < 26 {
        ((n + 65) as u32) as char
    } else if n < 52 {
        ((n + 71) as u32) as char
    } else if n < 62 {
        ((n - 4) as u32) as char
    } else if n == 62 {
        '+'
    } else {
        '/'
    }
}

/// The standard base64 text (with padding) of some bytes: each group of
/// three bytes becomes four characters, a last group of one or two bytes
/// becomes two or three characters and `=` padding.
pub open spec fn base64_standard_encoded(bytes: Seq<u8>) -> Seq<char>
    decreases bytes.len(),
{
    if bytes.len() == 0 {
        Seq::empty()
    } else if bytes.len() == 1 {
        seq![base64_char(bytes[0] as nat / 4), base64_char((bytes[0] as nat % 4) * 16), '=', '=']
    } else if bytes.len() == 2 {
        seq![
            base64_char(bytes[0] as nat / 4),
            base64_char((bytes[0] as nat % 4) * 16 + bytes[1] as nat / 16),
            base64_char((bytes[1] as nat % 16) * 4),
            '=',
        ]
    } else {
        seq![
            base64_char(bytes[0] as nat / 4),
            base64_char((bytes[0] as nat % 4) * 16 + bytes[1] as nat / 16),
            base64_char((bytes[1] as nat % 16) * 4 + bytes[2] as nat / 64),
            base64_char(bytes[2] as nat % 64),
        ] + base64_standard_encoded(bytes.subrange(3, bytes.len() as int))
    }
}

/// base64: `general_purpose::STANDARD.encode(bytes)`.
#[verifier::external_body]
pub(crate) fn base64_encode(bytes: &[u8]) -> (r: String)
    ensures
        r@ == base64_standard_encoded(bytes@),
{
    base64::engine::general_purpose::STANDARD.encode(bytes)
}

/// The bytes the standard base64 alphabet (with padding) decodes a text to.
pub uninterp spec fn base64_standard_decoded(text: Seq<u8>) -> Option<Seq<u8>>;

/// base64: `general_purpose::STANDARD.decode(text)`, the error mapped to
/// `None`.
#[verifier::external_body]
pub(crate) fn base64_decode(text: &str) -> (r: Option<Vec<u8>>)
    ensures
        match r {
            Some(v) => base64_standard_decoded(text.spec_bytes()) == Some(v@),
            None => base64_standard_decoded(text.spec_bytes()) is None,
        },
{
    base64::engine::general_purpose::STANDARD.decode(text).ok()
}

/// AES-256-CBC decryption with PKCS#7 unpadding; `None` when the data is
/// not whole blocks or the padding is wrong.
pub uninterp spec fn aes256_cbc_pkcs7_decrypted(key: Seq<u8>, iv: Seq<u8>, data: Seq<u8>) -> Option<Seq<u8>>;

/// `cbc::Decryptor<aes::Aes256>` from a 32-byte key and 16-byte IV, then
/// `decrypt_padded_vec_mut::<Pkcs7>`, the error mapped to `None`.
#[verifier::external_body]
pub(crate) fn aes256_cbc_decrypt(key: &[u8], iv: &[u8], data: &[u8]) -> (r: Option<Vec<u8>>)
    requires
        key@.len() == 32,
        iv@.len() == 16,
    ensures
        match r {
            Some(v) => aes256_cbc_pkcs7_decrypted(key@, iv@, data@) == Some(v@),
            None => aes256_cbc_pkcs7_decrypted(key@, iv@, data@) is None,
        },
{
    cbc::Decryptor::<aes::Aes256>::new_from_slices(key, iv).unwrap().decrypt_padded_vec_mut::<Pkcs7>(data).ok()
}

/// std: `String::from_utf8`, the error mapped to `None`: a string exactly
/// when the bytes are valid UTF-8, holding the characters they encode.
#[verifier::external_body]
pub(crate) fn utf8_decode(bytes: Vec<u8>) -> (r: Option<String>)
    ensures
        match r {
            Some(s) => vstd::utf8::valid_utf8(bytes@) && s@ == vstd::utf8::decode_utf8(bytes@),
            None => !vstd::utf8::valid_utf8(bytes@),
        },
{
    String::from_utf8(bytes).ok()
}

} // verus!

verus! {

proof fn lemma_hex_lower_digits(b: Seq<u8>)
    ensures
        hex_lower(b).len() == 2 * b.len(),
        forall|i: int|
            0 <= i < b.len() ==> #[trigger] hex_lower(b)[2 * i] == hex_digit((b[i] / 16) as nat) && hex_lower(
                b,
            )[2 * i + 1] == hex_digit((b[i] % 16) as nat),
    decreases b.len(),
{
    if b.len() > 0 {
        let p = b.drop_last();
        lemma_hex_lower_digits(p);
        assert forall|i: int| 0 <= i < b.len() implies #[trigger] hex_lower(b)[2 * i] == hex_digit(
            (b[i] / 16) as nat,
        ) && hex_lower(b)[2 * i + 1] == hex_digit((b[i] % 16) as nat) by {
            if i < p.len() {
                assert(p[i] == b[i]);
                assert(hex_lower(p)[2 * i] == hex_digit((p[i] / 16) as nat));
            }
        }
    }
}

proof fn lemma_hex_digit_value(n: nat)
    requires
        n < 16,
    ensures
        '\0' <= hex_digit(n) <= '\u{7f}',
        hex_value(hex_digit(n) as u8) == Some(n as u8),
{
    if n < 10 {
        assert(((n + 48) as u32) as char as u8 == n + 48);
    } else {
        assert(((n + 87) as u32) as char as u8 == n + 87);
    }
}

/// Decoding the lower-case hex text of some bytes gives the bytes back.
pub proof fn lemma_hex_round_trip(b: Seq<u8>)
    ensures
        hex_decoded(vstd::utf8::encode_utf8(hex_lower(b))) == Some(b),
{
    let h = hex_lower(b);
    lemma_hex_lower_digits(b);
    assert forall|j: int| 0 <= j < h.len() implies '\0' <= #[trigger] h[j] <= '\u{7f}' && hex_value(h[j] as u8) is Some by {
        let i = j / 2;
        assert(0 <= i < b.len());
        assert(h[2 * i] == hex_digit((b[i] / 16) as nat));
        assert(h[2 * i + 1] == hex_digit((b[i] % 16) as nat));
        if j % 2 == 0 {
            assert(j == 2 * i);
            lemma_hex_digit_value((b[i] / 16) as nat);
        } else {
            assert(j == 2 * i + 1);
            lemma_hex_digit_value((b[i] % 16) as nat);
        }
    }
    assert(vstd::utf8::is_ascii_chars(h));
    vstd::utf8::is_ascii_chars_encode_utf8(h);
    let t = vstd::utf8::encode_utf8(h);
    assert(t.len() == 2 * b.len());
    assert forall|j: int| 0 <= j < t.len() implies hex_value(#[trigger] t[j]) is Some by {
        assert(t[j] == h[j] as u8);
    }
    let d = Seq::new(
        (t.len() / 2) as nat,
        |i: int| (hex_value(t[2 * i])->0 * 16 + hex_value(t[2 * i + 1])->0) as u8,
    );
    assert forall|i: int| 0 <= i < b.len() implies d[i] == b[i] by {
        assert(t[2 * i] == h[2 * i] as u8);
        assert(t[2 * i + 1] == h[2 * i + 1] as u8);
        assert(h[2 * i] == hex_digit((b[i] / 16) as nat));
        assert(h[2 * i + 1] == hex_digit((b[i] % 16) as nat));
        lemma_hex_digit_value((b[i] / 16) as nat);
        lemma_hex_digit_value((b[i] % 16) as nat);
        assert(b[i] / 16 * 16 + b[i] % 16 == b[i]);
    }
    assert(d =~= b);
}

} // verus!
