//! The message signature: HMAC-SHA256 over the four document texts, written
//! in lower-case hex, or nothing where messages go unsigned.

use vstd::prelude::*;
use crate::con_info::ConnectionInfo;
use crate::error::{JuError, JuResult};

verus! {

/// The HMAC-SHA256 tag of `input` under `key`.
pub uninterp spec fn hmac_sha256(key: Seq<u8>, input: Seq<u8>) -> Seq<u8>;

/// The ASCII code of the lower-case hex digit for `n`, which is below 16.
pub open spec fn hex_digit(n: int) -> u8 {
    if n < 10 {
        (0x30 + n) as u8
    } else {
        (0x61 + n - 10) as u8
    }
}

/// `data` in lower-case hex: two digits for each byte, the high half first.
pub open spec fn hex_lower(data: Seq<u8>) -> Seq<u8> {
    Seq::new(
        2 * data.len(),
        |i: int|
            if i % 2 == 0 {
                hex_digit(data[i / 2] as int / 16)
            } else {
                hex_digit(data[i / 2] as int % 16)
            },
    )
}

/// The signature of four buffers under a key: the hex of the tag of the
/// buffers joined in their order, or nothing where there is no key.
pub open spec fn signature(
    key: Option<Seq<u8>>,
    d1: Seq<u8>,
    d2: Seq<u8>,
    d3: Seq<u8>,
    d4: Seq<u8>,
) -> Seq<u8> {
    match key {
        Some(k) => hex_lower(hmac_sha256(k, d1 + d2 + d3 + d4)),
        None => Seq::empty(),
    }
}

/// The key that a connection wants its messages signed under: none for the
/// empty scheme, the bytes of the connection's key for `hmac-sha256`. Any
/// other scheme is unknown, and is handed back.
pub open spec fn wanted_key(ci: ConnectionInfo) -> Result<Option<Seq<u8>>, Seq<char>> {
    if ci.signature_scheme@.len() == 0 {
        Ok(None)
    } else if ci.signature_scheme@ == "hmac-sha256"@ {
        Ok(Some(vstd::utf8::encode_utf8(ci.key@)))
    } else {
        Err(ci.signature_scheme@)
    }
}

/// The signature depends on nothing but the key and the four buffers: equal
/// keys and equal buffers give equal signatures.
pub proof fn lemma_signature_determined(
    key: Option<Seq<u8>>,
    d: (Seq<u8>, Seq<u8>, Seq<u8>, Seq<u8>),
    other_key: Option<Seq<u8>>,
    e: (Seq<u8>, Seq<u8>, Seq<u8>, Seq<u8>),
)
    requires
        key == other_key,
        d == e,
    ensures
        signature(key, d.0, d.1, d.2, d.3) == signature(other_key, e.0, e.1, e.2, e.3),
{
}

/// Without a key the signature is empty, whatever the buffers hold.
pub proof fn lemma_signature_unsigned(d1: Seq<u8>, d2: Seq<u8>, d3: Seq<u8>, d4: Seq<u8>)
    ensures
        signature(None, d1, d2, d3, d4) == Seq::<u8>::empty(),
{
}

/// Whether `b` is the ASCII code of a digit or of a letter from `a` to `f`.
pub open spec fn is_hex_code(b: u8) -> bool {
    (0x30 <= b <= 0x39) || (0x61 <= b <= 0x66)
}

/// Hex text has two digits for each byte, and nothing but lower-case hex
/// digits; so has the signature under a key.
pub proof fn lemma_hex_lower_shape(data: Seq<u8>)
    ensures
        hex_lower(data).len() == 2 * data.len(),
        forall|i: int| 0 <= i < hex_lower(data).len() ==> is_hex_code(#[trigger] hex_lower(data)[i]),
{
    assert forall|i: int| 0 <= i < hex_lower(data).len() implies is_hex_code(
        #[trigger] hex_lower(data)[i],
    ) by {
        let b = data[i / 2] as int;
        assert(0 <= b / 16 < 16 && 0 <= b % 16 < 16);
    }
}

/// `hmac_sha256::HMAC::mac`: the tag of `input` under `key`, 32 bytes.
#[verifier::external_body]
fn mac(input: &[u8], key: &[u8]) -> (r: [u8; 32])
    ensures
        r@ == hmac_sha256(key@, input@),
{
    hmac_sha256::HMAC::mac(input, key)
}

/// `hex::encode`: each byte as two lower-case hex digits, the high half
/// first; the string is handed on as its bytes.
#[verifier::external_body]
fn hex_encode(data: &[u8]) -> (r: Vec<u8>)
    ensures
        r@ == hex_lower(data@),
{
    hex::encode(data).into_bytes()
}

/// How messages are signed.
#[derive(Debug, Clone)]
pub enum Digester {
    /// HMAC-SHA256 under a fixed secret.
    HmacSha256 { key: Vec<u8> },
    /// No signature.
    Unsigned,
}

impl Digester {
    /// The secret, where there is one.
    pub open spec fn key(self) -> Option<Seq<u8>> {
        match self {
            Digester::HmacSha256 { key } => Some(key@),
            Digester::Unsigned => None,
        }
    }

    /// The digester that the connection asks for: none for the empty scheme,
    /// HMAC-SHA256 under the connection's key for `hmac-sha256`. Any other
    /// scheme is refused by its name.
    pub fn new(ci: &ConnectionInfo) -> (r: JuResult<Digester>)
        ensures
            match r {
                Ok(d) => wanted_key(*ci) == Ok::<Option<Seq<u8>>, Seq<char>>(d.key()),
                Err(e) => {
                    &&& e matches JuError::UnknownDigest(name)
                    &&& wanted_key(*ci) == Err::<Option<Seq<u8>>, Seq<char>>(name@)
                },
            },
    {
        let known = "hmac-sha256".to_owned();
        if ci.signature_scheme.as_str().is_empty() {
            Ok(Digester::Unsigned)
        } else if ci.signature_scheme == known {
            Ok(Digester::HmacSha256 { key: ci.key.as_str().as_bytes_vec() })
        } else {
            Err(JuError::UnknownDigest(ci.signature_scheme.clone()))
        }
    }

    /// The signature of four buffers, in their order.
    pub fn digest(&self, d1: &[u8], d2: &[u8], d3: &[u8], d4: &[u8]) -> (r: Vec<u8>)
        ensures
            r@ == signature(self.key(), d1@, d2@, d3@, d4@),
            self is Unsigned ==> r@.len() == 0,
    {
        match self {
            Digester::HmacSha256 { key } => {
                let mut input: Vec<u8> = Vec::new();
                input.extend_from_slice(d1);
                input.extend_from_slice(d2);
                input.extend_from_slice(d3);
                input.extend_from_slice(d4);
                assert(input@ =~= d1@ + d2@ + d3@ + d4@);
                let tag = mac(input.as_slice(), key.as_slice());
                hex_encode(tag.as_slice())
            },
            Digester::Unsigned => Vec::new(),
        }
    }
}

} // verus!
