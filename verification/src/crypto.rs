//! Binary integrity: the SHA-256 fingerprint of a plugin and its publisher's Ed25519 signature.
use vstd::prelude::*;
use vstd::string::*;
use sha2::Digest;
use ed25519_dalek::Verifier;

verus! {

/// The SHA-256 digest of `data`.
pub uninterp spec fn sha256(data: Seq<u8>) -> Seq<u8>;

/// `ed25519_dalek::VerifyingKey::try_from` accepts `bytes` as a public key (32 bytes that
/// decompress to a curve point).
pub uninterp spec fn ed25519_public_key_decodes(bytes: Seq<u8>) -> bool;

/// `ed25519_dalek`'s `verify` accepts `signature` on `message` under `public_key`.
pub uninterp spec fn ed25519_signature_verifies(
    public_key: Seq<u8>,
    message: Seq<u8>,
    signature: Seq<u8>,
) -> bool;

/// The text of the error that `hex::decode` reports for `text`.
pub uninterp spec fn hex_decode_error(text: Seq<char>) -> Seq<char>;

/// The lower-case hex digits.
pub open spec fn hex_digits() -> Seq<char> {
    seq!['0', '1', '2', '3', '4', '5', '6', '7', '8', '9', 'a', 'b', 'c', 'd', 'e', 'f']
}

/// The lower-case hex encoding of `bytes`: two digits per byte, high nibble first.
pub open spec fn hex_lower(bytes: Seq<u8>) -> Seq<char>
    decreases bytes.len(),
{
    if bytes.len() == 0 {
        Seq::empty()
    } else {
        seq![hex_digits()[(bytes[0] / 16) as int], hex_digits()[(bytes[0] % 16) as int]] + hex_lower(
            bytes.drop_first(),
        )
    }
}

/// The value of a hex digit of either case.
pub open spec fn hex_value(c: char) -> Option<int> {
    let n = c as u32;
    if 0x30 <= n <= 0x39 {
        Some(n - 0x30)
    } else if 0x61 <= n <= 0x66 {
        Some(n - 0x61 + 10)
    } else if 0x41 <= n <= 0x46 {
        Some(n - 0x41 + 10)
    } else {
        None
    }
}

/// `s` is an even number of hex digits.
pub open spec fn is_hex_text(s: Seq<char>) -> bool {
    &&& s.len() % 2 == 0
    &&& forall|i: int| 0 <= i < s.len() ==> #[trigger] hex_value(s[i]) is Some
}

/// The bytes that the hex text `s` stands for.
pub open spec fn hex_decoded(s: Seq<char>) -> Seq<u8> {
    Seq::new(
        s.len() / 2,
        |i: int| (hex_value(s[2 * i])->0 * 16 + hex_value(s[2 * i + 1])->0) as u8,
    )
}

/// Why a signature cannot be checked. Each variant carries the text of the error that the
/// outside crate reported.
#[derive(Debug, Clone, PartialEq, Eq)]
pub enum CryptoError {
    /// The public key is not hex text.
    InvalidPublicKeyHex(String),
    /// The signature is not hex text.
    InvalidSignatureHex(String),
    /// The public key bytes are not an Ed25519 public key.
    InvalidPublicKey(String),
    /// The signature bytes are not an Ed25519 signature.
    InvalidSignatureFormat(String),
}

/// The meaning of a `CryptoError`.
pub ghost enum CryptoFailure {
    InvalidPublicKeyHex(Seq<char>),
    InvalidSignatureHex(Seq<char>),
    InvalidPublicKey(Seq<char>),
    InvalidSignatureFormat(Seq<char>),
}

impl View for CryptoError {
    type V = CryptoFailure;

    open spec fn view(&self) -> CryptoFailure {
        match self {
            CryptoError::InvalidPublicKeyHex(d) => CryptoFailure::InvalidPublicKeyHex(d@),
            CryptoError::InvalidSignatureHex(d) => CryptoFailure::InvalidSignatureHex(d@),
            CryptoError::InvalidPublicKey(d) => CryptoFailure::InvalidPublicKey(d@),
            CryptoError::InvalidSignatureFormat(d) => CryptoFailure::InvalidSignatureFormat(d@),
        }
    }
}

/// The view of the outcome of a signature check.
pub open spec fn check_view(r: Result<bool, CryptoError>) -> Result<bool, CryptoFailure> {
    match r {
        Ok(b) => Ok(b),
        Err(e) => Err(e@),
    }
}

/// The message of an error, as a user reads it: the hex errors name the field whose text is
/// not hex (the underlying error stays in the detail), the Ed25519 errors add the underlying
/// error's text after a colon.
pub open spec fn failure_message(f: CryptoFailure) -> Seq<char> {
    match f {
        CryptoFailure::InvalidPublicKeyHex(_) => "Invalid hex in public key"@,
        CryptoFailure::InvalidSignatureHex(_) => "Invalid hex in signature"@,
        CryptoFailure::InvalidPublicKey(d) => "Invalid ed25519 public key: "@ + d,
        CryptoFailure::InvalidSignatureFormat(d) => "Invalid ed25519 signature format: "@ + d,
    }
}

/// The text that `ed25519_dalek` gives for refusing `bytes` as a public key.
pub open spec fn public_key_error_text(bytes: Seq<u8>) -> Seq<char> {
    if bytes.len() != 32 {
        "signature error: VerifyingKey must be 32 bytes in length"@
    } else {
        "signature error: Cannot decompress Edwards point"@
    }
}

impl CryptoError {
    /// The message that explains the error to a user.
    pub fn message(&self) -> (m: String)
        ensures
            m@ == failure_message(self@),
    {
        match self {
            CryptoError::InvalidPublicKeyHex(_) => "Invalid hex in public key".to_owned(),
            CryptoError::InvalidSignatureHex(_) => "Invalid hex in signature".to_owned(),
            CryptoError::InvalidPublicKey(d) => {
                let mut m = "Invalid ed25519 public key: ".to_owned();
                m.append(d.as_str());
                m
            },
            CryptoError::InvalidSignatureFormat(d) => {
                let mut m = "Invalid ed25519 signature format: ".to_owned();
                m.append(d.as_str());
                m
            },
        }
    }

    /// The text of the error that the outside crate reported.
    pub fn detail(&self) -> (d: &String)
        ensures
            self@ == CryptoFailure::InvalidPublicKeyHex(d@) || self@ == CryptoFailure::InvalidSignatureHex(d@)
                || self@ == CryptoFailure::InvalidPublicKey(d@) || self@ == CryptoFailure::InvalidSignatureFormat(d@),
    {
        match self {
            CryptoError::InvalidPublicKeyHex(d) => d,
            CryptoError::InvalidSignatureHex(d) => d,
            CryptoError::InvalidPublicKey(d) => d,
            CryptoError::InvalidSignatureFormat(d) => d,
        }
    }
}

/// Calls `<sha2::Sha256 as Digest>::digest`. Claims that the result is the SHA-256 digest of
/// the data, a function of the data alone, and that it is 32 bytes long.
#[verifier::external_body]
fn sha256_digest(data: &[u8]) -> (d: Vec<u8>)
    ensures
        d@ == sha256(data@),
        d@.len() == 32,
{
    sha2::Sha256::digest(data).to_vec()
}

/// Calls `hex::encode`. Claims its documented result: two lower-case digits per byte.
#[verifier::external_body]
fn encode_hex(bytes: &[u8]) -> (s: String)
    ensures
        s@ == hex_lower(bytes@),
{
    hex::encode(bytes)
}

/// Calls `hex::decode` on the UTF-8 bytes of `text`. Claims what its source shows: it
/// succeeds exactly on an even number of hex digits of either case (any other character,
/// non-ASCII ones included, is refused), and then gives the byte of each pair of digits; on
/// failure the text of its error, a function of the input alone (`hex_decode_error`).
#[verifier::external_body]
fn decode_hex(text: &str) -> (r: Result<Vec<u8>, String>)
    ensures
        r is Ok <==> is_hex_text(text@),
        r matches Ok(v) ==> v@ == hex_decoded(text@),
        r matches Err(e) ==> e@ == hex_decode_error(text@),
{
    match hex::decode(text) {
        Ok(v) => Ok(v),
        Err(e) => Err(e.to_string()),
    }
}

/// The outcome of checking a signature given as bytes.
pub open spec fn spec_ed25519_check(public_key: Seq<u8>, message: Seq<u8>, signature: Seq<u8>) -> Result<bool, CryptoFailure> {
    if !ed25519_public_key_decodes(public_key) {
        Err(CryptoFailure::InvalidPublicKey(public_key_error_text(public_key)))
    } else if signature.len() != 64 {
        Err(CryptoFailure::InvalidSignatureFormat("signature error"@))
    } else {
        Ok(ed25519_signature_verifies(public_key, message, signature))
    }
}

/// Calls `ed25519_dalek::VerifyingKey::try_from`, `ed25519_dalek::Signature::try_from` and
/// `Verifier::verify`. Claims what their sources show (with the crates' default `std`
/// feature, which keeps the cause of a key error in its text): the key is refused exactly when
/// it does not decode, which it never does unless it is 32 bytes long, with the text of a
/// length error or of a point that does not decompress; the signature is refused exactly
/// when it is not 64 bytes long, with the bare "signature error"; otherwise the answer is
/// whether `verify` accepts, a function of the three byte strings alone.
#[verifier::external_body]
fn ed25519_check(public_key: &[u8], message: &[u8], signature: &[u8]) -> (r: Result<bool, CryptoError>)
    ensures
        r is Ok <==> (ed25519_public_key_decodes(public_key@) && signature@.len() == 64),
        r matches Ok(valid) ==> valid == ed25519_signature_verifies(public_key@, message@, signature@),
        r matches Err(e) ==> (!ed25519_public_key_decodes(public_key@) ==> e@ == CryptoFailure::InvalidPublicKey(public_key_error_text(public_key@))),
        r matches Err(e) ==> (ed25519_public_key_decodes(public_key@) ==> e@ == CryptoFailure::InvalidSignatureFormat("signature error"@)),
        (r is Ok || r matches Err(CryptoError::InvalidSignatureFormat(_))) ==> public_key@.len() == 32,
{
    let key = match ed25519_dalek::VerifyingKey::try_from(public_key) {
        Ok(k) => k,
        Err(e) => return Err(CryptoError::InvalidPublicKey(e.to_string())),
    };
    let sig = match ed25519_dalek::Signature::try_from(signature) {
        Ok(s) => s,
        Err(e) => return Err(CryptoError::InvalidSignatureFormat(e.to_string())),
    };
    Ok(key.verify(message, &sig).is_ok())
}

/// The outcome of checking the hex signature `signature_hex` on `wasm_bytes` under the hex
/// public key `public_key_hex`: the key text is decoded first, then the signature text.
pub open spec fn spec_verify_signature(
    wasm_bytes: Seq<u8>,
    signature_hex: Seq<char>,
    public_key_hex: Seq<char>,
) -> Result<bool, CryptoFailure> {
    if !is_hex_text(public_key_hex) {
        Err(CryptoFailure::InvalidPublicKeyHex(hex_decode_error(public_key_hex)))
    } else if !is_hex_text(signature_hex) {
        Err(CryptoFailure::InvalidSignatureHex(hex_decode_error(signature_hex)))
    } else {
        spec_ed25519_check(hex_decoded(public_key_hex), wasm_bytes, hex_decoded(signature_hex))
    }
}


/// When the key and the signature are hex text, the key decodes and the signature is 64
/// bytes, the answer is whether the signature holds over the whole binary, every byte of it
/// the message.
pub proof fn lemma_signature_covers_whole_binary(
    wasm_bytes: Seq<u8>,
    signature_hex: Seq<char>,
    public_key_hex: Seq<char>,
)
    requires
        is_hex_text(public_key_hex),
        is_hex_text(signature_hex),
        ed25519_public_key_decodes(hex_decoded(public_key_hex)),
        hex_decoded(signature_hex).len() == 64,
    ensures
        spec_verify_signature(wasm_bytes, signature_hex, public_key_hex) == Ok::<bool, CryptoFailure>(
            ed25519_signature_verifies(hex_decoded(public_key_hex), wasm_bytes, hex_decoded(signature_hex))),
{
}

/// Two binaries checked against the same key and signature get different answers whenever
/// the signature holds over one and not the other: no part of a binary goes unchecked.
pub proof fn lemma_signature_distinguishes_binaries(
    b1: Seq<u8>,
    b2: Seq<u8>,
    signature_hex: Seq<char>,
    public_key_hex: Seq<char>,
)
    requires
        is_hex_text(public_key_hex),
        is_hex_text(signature_hex),
        ed25519_public_key_decodes(hex_decoded(public_key_hex)),
        hex_decoded(signature_hex).len() == 64,
        ed25519_signature_verifies(hex_decoded(public_key_hex), b1, hex_decoded(signature_hex))
            != ed25519_signature_verifies(hex_decoded(public_key_hex), b2, hex_decoded(signature_hex)),
    ensures
        spec_verify_signature(b1, signature_hex, public_key_hex) != spec_verify_signature(b2, signature_hex, public_key_hex),
{
}

/// The hex encoding is twice as long as the bytes.
pub proof fn lemma_hex_lower_len(bytes: Seq<u8>)
    ensures
        hex_lower(bytes).len() == 2 * bytes.len(),
    decreases bytes.len(),
{
    if bytes.len() > 0 {
        lemma_hex_lower_len(bytes.drop_first());
    }
}

/// Every character of a hex encoding is a lower-case hex digit.
pub proof fn lemma_hex_lower_digits(bytes: Seq<u8>)
    ensures
        forall|i: int| 0 <= i < hex_lower(bytes).len() ==> hex_digits().contains(
            #[trigger] hex_lower(bytes)[i],
        ),
    decreases bytes.len(),
{
    if bytes.len() > 0 {
        lemma_hex_lower_digits(bytes.drop_first());
        let head = seq![hex_digits()[(bytes[0] / 16) as int], hex_digits()[(bytes[0] % 16) as int]];
        assert forall|i: int| 0 <= i < hex_lower(bytes).len() implies hex_digits().contains(
            #[trigger] hex_lower(bytes)[i],
        ) by {
            if i < 2 {
                assert(hex_lower(bytes)[i] == head[i]);
                if i == 0 {
                    assert(hex_digits()[(bytes[0] / 16) as int] == head[0]);
                } else {
                    assert(hex_digits()[(bytes[0] % 16) as int] == head[1]);
                }
            } else {
                assert(hex_lower(bytes)[i] == hex_lower(bytes.drop_first())[i - 2]);
            }
        }
    }
}

/// Reading back a lower-case hex encoding gives the bytes that were encoded.
pub proof fn lemma_hex_roundtrip(bytes: Seq<u8>)
    ensures
        is_hex_text(hex_lower(bytes)),
        hex_decoded(hex_lower(bytes)) == bytes,
    decreases bytes.len(),
{
    lemma_hex_lower_len(bytes);
    if bytes.len() > 0 {
        let rest = bytes.drop_first();
        lemma_hex_roundtrip(rest);
        lemma_hex_lower_len(rest);
        let h = hex_lower(bytes);
        let t = hex_lower(rest);
        let b = bytes[0];
        assert(h[0] == hex_digits()[(b / 16) as int]);
        assert(h[1] == hex_digits()[(b % 16) as int]);
        assert forall|i: int| 2 <= i < h.len() implies h[i] == t[i - 2] by {}
        assert(hex_value(h[0]) == Some((b / 16) as int));
        assert(hex_value(h[1]) == Some((b % 16) as int));
        assert forall|i: int| 0 <= i < h.len() implies #[trigger] hex_value(h[i]) is Some by {
            if i >= 2 {
                assert(h[i] == t[i - 2]);
            }
        }
        assert(hex_decoded(h) =~= bytes) by {
            assert forall|i: int| 0 <= i < bytes.len() implies hex_decoded(h)[i] == bytes[i] by {
                if i == 0 {
                    assert((b / 16) * 16 + b % 16 == b);
                } else {
                    assert(h[2 * i] == t[2 * (i - 1)]);
                    assert(h[2 * i + 1] == t[2 * (i - 1) + 1]);
                    assert(hex_decoded(t)[i - 1] == rest[i - 1]);
                }
            }
        }
    }
}

/// Integrity checks on plugin binaries.
pub struct Crypto;

impl Crypto {
    /// The SHA-256 fingerprint of the binary, as 64 lower-case hex digits.
    pub fn hash_binary(wasm_bytes: &[u8]) -> (s: String)
        ensures
            s@ == hex_lower(sha256(wasm_bytes@)),
            s@.len() == 64,
            forall|i: int| 0 <= i < s@.len() ==> hex_digits().contains(#[trigger] s@[i]),
    {
        let digest = sha256_digest(wasm_bytes);
        let s = encode_hex(digest.as_slice());
        proof {
            lemma_hex_lower_len(digest@);
            lemma_hex_lower_digits(digest@);
        }
        s
    }

    /// Checks the publisher's Ed25519 signature on the binary: `Ok(true)` when it holds,
    /// `Ok(false)` when it does not, and an error when the key or the signature cannot be read.
    pub fn verify_signature(wasm_bytes: &[u8], signature_hex: &str, public_key_hex: &str) -> (r:
        Result<bool, CryptoError>)
        ensures
            check_view(r) == spec_verify_signature(wasm_bytes@, signature_hex@, public_key_hex@),
    {
        let pub_key_bytes = match decode_hex(public_key_hex) {
            Ok(b) => b,
            Err(e) => return Err(CryptoError::InvalidPublicKeyHex(e)),
        };
        let sig_bytes = match decode_hex(signature_hex) {
            Ok(b) => b,
            Err(e) => return Err(CryptoError::InvalidSignatureHex(e)),
        };
        ed25519_check(pub_key_bytes.as_slice(), wasm_bytes, sig_bytes.as_slice())
    }
}

} // verus!
