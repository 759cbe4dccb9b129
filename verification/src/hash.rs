//! The identifier of a message: six characters derived from its text and its
//! context.

use vstd::prelude::*;
use vstd::string::StrSliceExecFns;
use vstd::string::StringExecFns;
use vstd::utf8::encode_utf8;
use data_encoding::BASE64;
use sha2::{Digest, Sha256};

verus! {

/// The SHA-256 digest of a sequence of bytes.
pub uninterp spec fn sha256(data: Seq<u8>) -> Seq<u8>;

/// The padded base64 text (RFC 4648, section 4) of a sequence of bytes.
pub uninterp spec fn base64(data: Seq<u8>) -> Seq<char>;

/// The length of the padded base64 text of `n` bytes.
pub open spec fn base64_len(n: nat) -> nat {
    (n + 2) / 3 * 4
}

/// `Sha256::digest` of sha2: the SHA-256 digest of the bytes given, which
/// is 32 bytes long.
#[verifier::external_body]
fn sha256_digest(data: &[u8]) -> (r: Vec<u8>)
    ensures
        r@ == sha256(data@),
        r@.len() == 32,
{
    Sha256::digest(data).to_vec()
}

/// The number of characters of the base64 text of `n` bytes that stand
/// for data: one for every six bits begun. The rest is padding.
pub open spec fn base64_symbols(n: nat) -> nat {
    (8 * n + 5) / 6
}

/// Whether `c` is one of the 64 characters that stand for data in base64:
/// a letter, a digit, `+` or `/`.
pub open spec fn is_base64_symbol(c: char) -> bool {
    'A' <= c <= 'Z' || 'a' <= c <= 'z' || '0' <= c <= '9' || c == '+' || c == '/'
}

/// `Encoding::encode` of data_encoding, on its `BASE64`: the padded base64
/// text of the bytes given, four characters for every three bytes begun.
/// One character for every six bits begun is a letter, a digit, `+` or
/// `/`, and what follows is the padding `=`.
#[verifier::external_body]
fn base64_encode(data: &[u8]) -> (r: String)
    requires
        data@.len() <= usize::MAX / 512,
    ensures
        r@ == base64(data@),
        r@.len() == base64_len(data@.len()),
        forall|i: int|
            0 <= i < r@.len() ==> if i < base64_symbols(data@.len()) {
                is_base64_symbol(#[trigger] r@[i])
            } else {
                r@[i] == '='
            },
{
    BASE64.encode(data)
}

/// The bytes that are digested: the text in UTF-8, the byte `0x1F`, and the
/// context in UTF-8, where there is one.
pub open spec fn hash_input(text: Seq<char>, context: Option<Seq<char>>) -> Seq<u8> {
    encode_utf8(text) + seq![0x1Fu8] + match context {
        Some(c) => encode_utf8(c),
        None => Seq::empty(),
    }
}

/// The identifier of a text in a context: the first six characters of the
/// base64 text of the SHA-256 digest of [`hash_input`].
pub open spec fn hash_text(text: Seq<char>, context: Option<Seq<char>>) -> Seq<char> {
    base64(sha256(hash_input(text, context))).take(6)
}

/// The first six characters of an encoded digest.
pub fn hash_prefix(encoded: &str) -> (r: String)
    requires
        encoded@.len() >= 6,
    ensures
        r@ == encoded@.take(6),
{
    String::from_str(encoded.substring_char(0, 6))
}

/// The bytes that [`generate_hash`] digests.
pub fn hash_bytes(input: &str, context: Option<&str>) -> (r: Vec<u8>)
    ensures
        r@ == hash_input(
            input@,
            match context {
                Some(c) => Some(c@),
                None => None,
            },
        ),
{
    let mut data: Vec<u8> = input.as_bytes_vec();
    data.push(0x1F);
    match context {
        Some(c) => {
            let bytes = c.as_bytes();
            let ghost head = data@;
            let mut i: usize = 0;
            while i < bytes.len()
                invariant
                    i <= bytes@.len(),
                    data@ == head + bytes@.take(i as int),
                decreases bytes.len() - i,
            {
                data.push(bytes[i]);
                assert(bytes@.take(i + 1) =~= bytes@.take(i as int).push(bytes@[i as int]));
                assert(data@ =~= head + bytes@.take(i + 1));
                i = i + 1;
            }
            assert(bytes@.take(i as int) =~= bytes@);
        },
        None => {
            assert(data@ =~= data@ + Seq::<u8>::empty());
        },
    }
    data
}

/// The identifier of a message text in a context: six characters, each a
/// letter, a digit, `+` or `/`. No context and the empty context give the
/// same identifier.
pub fn generate_hash(input: &str, context: Option<&str>) -> (r: String)
    ensures
        r@ == hash_text(
            input@,
            match context {
                Some(c) => Some(c@),
                None => None,
            },
        ),
        r@.len() == 6,
        forall|i: int| 0 <= i < 6 ==> is_base64_symbol(#[trigger] r@[i]),
{
    let data = hash_bytes(input, context);
    let digest = sha256_digest(data.as_slice());
    let encoded = base64_encode(digest.as_slice());
    hash_prefix(encoded.as_str())
}

/// The identifier is the same without a context and with the empty one.
pub proof fn lemma_hash_without_context(text: Seq<char>)
    ensures
        hash_text(text, None) == hash_text(text, Some(Seq::empty())),
{
    assert(encode_utf8(Seq::<char>::empty()) =~= Seq::<u8>::empty());
    assert(hash_input(text, None) =~= hash_input(text, Some(Seq::empty())));
}

} // verus!
