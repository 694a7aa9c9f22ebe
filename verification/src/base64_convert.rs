//! The base64 form of AES keys (URL-safe alphabet, no padding, RFC 4648 section 5).

use base64::Engine;
use vstd::prelude::*;

verus! {

/// The character of the URL-safe base64 alphabet that stands for the 6-bit value `v`.
pub open spec fn url_safe_symbol(v: int) -> char {
    if v < 26 {
        (65 + v) as char  // 'A'..='Z'
    } else if v < 52 {
        (97 + (v - 26)) as char  // 'a'..='z'
    } else if v < 62 {
        (48 + (v - 52)) as char  // '0'..='9'
    } else if v == 62 {
        '-'
    } else {
        '_'
    }
}

/// A character of the URL-safe base64 alphabet: a letter, a digit, `-` or `_`; none of
/// them needs escaping in a URL path.
pub open spec fn is_url_safe_char(c: char) -> bool {
    ('A' as int <= c as int <= 'Z' as int) || ('a' as int <= c as int <= 'z' as int) || ('0' as int
        <= c as int <= '9' as int) || c == '-' || c == '_'
}

/// URL-safe base64 without padding: every 3 bytes become 4 symbols, a final group of
/// 1 or 2 bytes becomes 2 or 3 symbols whose unused low bits are zero.
pub open spec fn base64_url_encode(bytes: Seq<u8>) -> Seq<char>
    decreases bytes.len(),
{
    if bytes.len() == 0 {
        seq![]
    } else if bytes.len() == 1 {
        let b0 = bytes[0] as int;
        seq![url_safe_symbol(b0 / 4), url_safe_symbol((b0 % 4) * 16)]
    } else if bytes.len() == 2 {
        let b0 = bytes[0] as int;
        let b1 = bytes[1] as int;
        seq![
            url_safe_symbol(b0 / 4),
            url_safe_symbol((b0 % 4) * 16 + b1 / 16),
            url_safe_symbol((b1 % 16) * 4),
        ]
    } else {
        let b0 = bytes[0] as int;
        let b1 = bytes[1] as int;
        let b2 = bytes[2] as int;
        seq![
            url_safe_symbol(b0 / 4),
            url_safe_symbol((b0 % 4) * 16 + b1 / 16),
            url_safe_symbol((b1 % 16) * 4 + b2 / 64),
            url_safe_symbol(b2 % 64),
        ] + base64_url_encode(bytes.skip(3))
    }
}

/// Why a key given as text could not be turned into an AES-256 key.
#[derive(Debug, Clone, Copy, PartialEq, Eq, Structural)]
pub enum KeyError {
    /// The text is not the URL-safe, unpadded base64 form of any bytes.
    NotBase64,
    /// The text is base64, but of a number of bytes other than 32.
    WrongLength,
}

impl KeyError {
    /// The text of the error.
    pub fn message(&self) -> (text: &'static str)
        ensures
            *self == KeyError::NotBase64 ==> text@ == "Can not convert to base64"@,
            *self == KeyError::WrongLength ==> text@ == "Can not convert aes_key to bytes"@,
    {
        match self {
            KeyError::NotBase64 => "Can not convert to base64",
            KeyError::WrongLength => "Can not convert aes_key to bytes",
        }
    }
}

/// Calls `base64::engine::general_purpose::URL_SAFE_NO_PAD.encode`, which writes the bytes
/// in the URL-safe alphabet without `=` padding: the contract claims that the text is
/// exactly `base64_url_encode` of the bytes.
#[verifier::external_body]
fn encode_url_safe_no_pad(bytes: &[u8]) -> (text: String)
    ensures
        text@ == base64_url_encode(bytes@),
{
    base64::engine::general_purpose::URL_SAFE_NO_PAD.encode(bytes)
}

/// Calls `base64::engine::general_purpose::URL_SAFE_NO_PAD.decode`. That engine refuses
/// `=` padding and set trailing bits, so it accepts exactly the canonical encodings: the
/// contract claims that it returns `b` precisely when the text is `base64_url_encode(b)`,
/// and fails when the text is the encoding of nothing.
#[verifier::external_body]
fn decode_url_safe_no_pad(text: &str) -> (bytes: Option<Vec<u8>>)
    ensures
        forall|b: Seq<u8>|
            #[trigger] base64_url_encode(b) == text@ <==> (bytes matches Some(v) && v@ == b),
{
    base64::engine::general_purpose::URL_SAFE_NO_PAD.decode(text).ok()
}

/// Every 6-bit value stands for a URL-safe character.
proof fn lemma_symbol_url_safe(v: int)
    requires
        0 <= v < 64,
    ensures
        is_url_safe_char(url_safe_symbol(v)),
{
}

/// `n` bytes are written as `4 * (n / 3)` symbols, and 2 or 3 more for a final group of
/// 1 or 2 bytes; every symbol is URL-safe.
pub proof fn lemma_encode_shape(bytes: Seq<u8>)
    ensures
        base64_url_encode(bytes).len() == 4 * (bytes.len() / 3) + if bytes.len() % 3 == 0 {
            0int
        } else {
            bytes.len() % 3 + 1int
        },
        forall|i: int|
            0 <= i < base64_url_encode(bytes).len() ==> is_url_safe_char(
                #[trigger] base64_url_encode(bytes)[i],
            ),
    decreases bytes.len(),
{
    let e = base64_url_encode(bytes);
    if bytes.len() == 0 {
    } else if bytes.len() < 3 {
        let b0 = bytes[0] as int;
        lemma_symbol_url_safe(b0 / 4);
        if bytes.len() == 1 {
            lemma_symbol_url_safe((b0 % 4) * 16);
        } else {
            let b1 = bytes[1] as int;
            lemma_symbol_url_safe((b0 % 4) * 16 + b1 / 16);
            lemma_symbol_url_safe((b1 % 16) * 4);
        }
    } else {
        let b0 = bytes[0] as int;
        let b1 = bytes[1] as int;
        let b2 = bytes[2] as int;
        lemma_symbol_url_safe(b0 / 4);
        lemma_symbol_url_safe((b0 % 4) * 16 + b1 / 16);
        lemma_symbol_url_safe((b1 % 16) * 4 + b2 / 64);
        lemma_symbol_url_safe(b2 % 64);
        let rest = bytes.skip(3);
        lemma_encode_shape(rest);
        let head = seq![
            url_safe_symbol(b0 / 4),
            url_safe_symbol((b0 % 4) * 16 + b1 / 16),
            url_safe_symbol((b1 % 16) * 4 + b2 / 64),
            url_safe_symbol(b2 % 64),
        ];
        assert(e == head + base64_url_encode(rest));
        assert forall|i: int| 0 <= i < e.len() implies is_url_safe_char(#[trigger] e[i]) by {
            if i >= 4 {
                assert(e[i] == base64_url_encode(rest)[i - 4]);
            }
        }
    }
}

/// The base64 text of an AES-256 key, as handed to the uploader: 43 URL-safe characters.
pub fn convert_aes_to_base64(aes_bytes: [u8; 32]) -> (text: String)
    ensures
        text@ == base64_url_encode(aes_bytes@),
        text@.len() == 43,
        forall|i: int| 0 <= i < text@.len() ==> is_url_safe_char(#[trigger] text@[i]),
{
    let text = encode_url_safe_no_pad(&aes_bytes);
    proof {
        lemma_encode_shape(aes_bytes@);
    }
    text
}

/// What URL-safe, unpadded base64 decoding gives for `text`: the bytes whose encoding is
/// `text`, if there are any (there is at most one such sequence).
pub open spec fn base64_url_decode(text: Seq<char>) -> Option<Seq<u8>> {
    if exists|b: Seq<u8>| #[trigger] base64_url_encode(b) == text {
        Some(choose|b: Seq<u8>| #[trigger] base64_url_encode(b) == text)
    } else {
        None
    }
}

/// The AES-256 key that a base64 text stands for, or why it stands for none.
pub open spec fn key_from_base64(text: Seq<char>) -> Result<Seq<u8>, KeyError> {
    match base64_url_decode(text) {
        None => Err(KeyError::NotBase64),
        Some(b) => if b.len() == 32 {
            Ok(b)
        } else {
            Err(KeyError::WrongLength)
        },
    }
}

/// Reads an AES-256 key back from its base64 text.
pub fn convert_base64_to_aes(aes_key: String) -> (res: Result<[u8; 32], KeyError>)
    ensures
        match res {
            Ok(key) => key_from_base64(aes_key@) == Ok::<Seq<u8>, KeyError>(key@),
            Err(e) => key_from_base64(aes_key@) == Err::<Seq<u8>, KeyError>(e),
        },
{
    let key_vec = match decode_url_safe_no_pad(aes_key.as_str()) {
        Some(v) => v,
        None => return Err(KeyError::NotBase64),
    };
    proof {
        let ghost chosen = choose|b: Seq<u8>| #[trigger] base64_url_encode(b) == aes_key@;
        assert(base64_url_encode(key_vec@) == aes_key@);
        assert(base64_url_encode(chosen) == aes_key@);
        assert(chosen == key_vec@);
        assert(base64_url_decode(aes_key@) == Some(key_vec@));
    }
    if key_vec.len() != 32 {
        return Err(KeyError::WrongLength);
    }
    let mut key = [0u8; 32];
    for i in 0..32
        invariant
            key_vec@.len() == 32,
            forall|j: int| 0 <= j < i ==> key@[j] == key_vec@[j],
    {
        key[i] = key_vec[i];
    }
    assert(key@ =~= key_vec@);
    Ok(key)
}

/// Why `get_aes_key_from_base64` could not read a key: the kind of failure and the text
/// it reports.
#[derive(Debug, Clone, Copy, PartialEq, Eq)]
pub struct KeyTextError {
    pub kind: KeyError,
    pub message: &'static str,
}

/// Reads an AES-256 key back from its base64 text, as `convert_base64_to_aes` does, and
/// reports a failure as `Can not convert aes_key into base64` (not base64) or `Can not
/// convert aes_key to bytes` (base64 of another length).
pub fn get_aes_key_from_base64(aes_key: String) -> (res: Result<[u8; 32], KeyTextError>)
    ensures
        match res {
            Ok(key) => key_from_base64(aes_key@) == Ok::<Seq<u8>, KeyError>(key@),
            Err(e) => {
                &&& key_from_base64(aes_key@) == Err::<Seq<u8>, KeyError>(e.kind)
                &&& e.kind == KeyError::NotBase64 ==> e.message@ == "Can not convert aes_key into base64"@
                &&& e.kind == KeyError::WrongLength ==> e.message@ == "Can not convert aes_key to bytes"@
            },
        },
{
    match convert_base64_to_aes(aes_key) {
        Ok(key) => Ok(key),
        Err(KeyError::NotBase64) => Err(
            KeyTextError { kind: KeyError::NotBase64, message: "Can not convert aes_key into base64" },
        ),
        Err(KeyError::WrongLength) => Err(
            KeyTextError { kind: KeyError::WrongLength, message: "Can not convert aes_key to bytes" },
        ),
    }
}

/// Each 6-bit value has its own symbol.
proof fn lemma_symbol_injective(v: int, w: int)
    requires
        0 <= v < 64,
        0 <= w < 64,
        url_safe_symbol(v) == url_safe_symbol(w),
    ensures
        v == w,
{
}

/// Three bytes are determined by the four 6-bit values they are written as.
proof fn lemma_group_injective(b0: u8, b1: u8, b2: u8, c0: u8, c1: u8, c2: u8)
    by (bit_vector)
    requires
        b0 / 4 == c0 / 4,
        (b0 % 4) * 16 + b1 / 16 == (c0 % 4) * 16 + c1 / 16,
        (b1 % 16) * 4 + b2 / 64 == (c1 % 16) * 4 + c2 / 64,
        b2 % 64 == c2 % 64,
    ensures
        b0 == c0,
        b1 == c1,
        b2 == c2,
{
}

/// Fewer than 3 bytes give fewer than 4 symbols, and each byte count its own number.
proof fn lemma_encode_len_small(a: Seq<u8>)
    ensures
        a.len() < 3 ==> base64_url_encode(a).len() == if a.len() == 0 { 0int } else { a.len() + 1int },
        a.len() >= 3 ==> base64_url_encode(a).len() >= 4,
{
}

/// Different bytes have different encodings.
pub proof fn lemma_encode_injective(a: Seq<u8>, b: Seq<u8>)
    requires
        base64_url_encode(a) == base64_url_encode(b),
    ensures
        a == b,
    decreases a.len(),
{
    let ea = base64_url_encode(a);
    let eb = base64_url_encode(b);
    if a.len() >= 3 && b.len() >= 3 {
        let (a0, a1, a2) = (a[0], a[1], a[2]);
        let (c0, c1, c2) = (b[0], b[1], b[2]);
        assert(ea[0] == url_safe_symbol(a0 as int / 4));
        assert(ea[1] == url_safe_symbol((a0 as int % 4) * 16 + a1 as int / 16));
        assert(ea[2] == url_safe_symbol((a1 as int % 16) * 4 + a2 as int / 64));
        assert(ea[3] == url_safe_symbol(a2 as int % 64));
        assert(eb[0] == url_safe_symbol(c0 as int / 4));
        assert(eb[1] == url_safe_symbol((c0 as int % 4) * 16 + c1 as int / 16));
        assert(eb[2] == url_safe_symbol((c1 as int % 16) * 4 + c2 as int / 64));
        assert(eb[3] == url_safe_symbol(c2 as int % 64));
        lemma_symbol_injective(a0 as int / 4, c0 as int / 4);
        lemma_symbol_injective((a0 as int % 4) * 16 + a1 as int / 16, (c0 as int % 4) * 16 + c1 as int / 16);
        lemma_symbol_injective((a1 as int % 16) * 4 + a2 as int / 64, (c1 as int % 16) * 4 + c2 as int / 64);
        lemma_symbol_injective(a2 as int % 64, c2 as int % 64);
        lemma_group_injective(a0, a1, a2, c0, c1, c2);
        assert(base64_url_encode(a.skip(3)) =~= ea.skip(4));
        assert(base64_url_encode(b.skip(3)) =~= eb.skip(4));
        lemma_encode_injective(a.skip(3), b.skip(3));
        assert(a =~= seq![a0, a1, a2] + a.skip(3));
        assert(b =~= seq![c0, c1, c2] + b.skip(3));
    } else if a.len() >= 3 || b.len() >= 3 {
        lemma_encode_len_small(a);
        lemma_encode_len_small(b);
    } else {
        lemma_encode_len_small(a);
        lemma_encode_len_small(b);
        if a.len() == 1 {
            lemma_symbol_injective(a[0] as int / 4, b[0] as int / 4);
            lemma_symbol_injective((a[0] as int % 4) * 16, (b[0] as int % 4) * 16);
            lemma_group_injective(a[0], 0, 0, b[0], 0, 0);
            assert(a =~= b);
        } else if a.len() == 2 {
            lemma_symbol_injective(a[0] as int / 4, b[0] as int / 4);
            lemma_symbol_injective((a[0] as int % 4) * 16 + a[1] as int / 16, (b[0] as int % 4) * 16 + b[1] as int / 16);
            lemma_symbol_injective((a[1] as int % 16) * 4, (b[1] as int % 16) * 4);
            lemma_group_injective(a[0], a[1], 0, b[0], b[1], 0);
            assert(a =~= b);
        } else {
            assert(a =~= b);
        }
    }
}

/// Decoding gives back what encoding wrote.
pub proof fn lemma_decode_encode(bytes: Seq<u8>)
    ensures
        base64_url_decode(base64_url_encode(bytes)) == Some(bytes),
{
    let text = base64_url_encode(bytes);
    assert(base64_url_encode(bytes) == text);
    let chosen = choose|b: Seq<u8>| #[trigger] base64_url_encode(b) == text;
    lemma_encode_injective(chosen, bytes);
}

/// A key written by `convert_aes_to_base64` is read back unchanged by
/// `convert_base64_to_aes`.
pub proof fn lemma_key_text_round_trip(key: [u8; 32])
    ensures
        key_from_base64(base64_url_encode(key@)) == Ok::<Seq<u8>, KeyError>(key@),
{
    lemma_decode_encode(key@);
}

} // verus!
