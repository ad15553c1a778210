//! Byte layouts, digests and query text used by the submission protocol.
use vstd::prelude::*;
use vstd::utf8::encode_utf8;

verus! {

/// The `n` low-order bytes of `v`, least significant first.
pub open spec fn le_bytes(v: nat, n: nat) -> Seq<u8>
    decreases n,
{
    if n == 0 {
        Seq::empty()
    } else {
        seq![(v % 256) as u8] + le_bytes(v / 256, (n - 1) as nat)
    }
}

/// A byte string preceded by its length as a four-byte little-endian integer.
pub open spec fn len_prefixed(b: Seq<u8>) -> Seq<u8> {
    le_bytes(b.len(), 4) + b
}

/// An optional byte string: a zero tag when absent, else a one tag and the
/// length-prefixed bytes.
pub open spec fn opt_field(o: Option<Seq<u8>>) -> Seq<u8> {
    match o {
        None => seq![0u8],
        Some(b) => seq![1u8] + len_prefixed(b),
    }
}

/// A text field: its UTF-8 bytes, length-prefixed.
pub open spec fn str_field(s: Seq<char>) -> Seq<u8> {
    len_prefixed(encode_utf8(s))
}

/// The bytes of an optional vector.
pub open spec fn opt_view(o: Option<Vec<u8>>) -> Option<Seq<u8>> {
    match o {
        None => None,
        Some(v) => Some(v@),
    }
}

/// Whether a byte string's length can be written as a four-byte prefix.
pub open spec fn fits_prefix(b: Seq<u8>) -> bool {
    b.len() <= u32::MAX
}

/// Whether an optional byte string, if present, fits a four-byte prefix.
pub open spec fn opt_fits_prefix(o: Option<Seq<u8>>) -> bool {
    match o {
        None => true,
        Some(b) => fits_prefix(b),
    }
}

/// Relies on `borsh::to_vec` for a tuple of a byte vector and two optional
/// byte vectors: the fields in order, vectors length-prefixed, options tagged;
/// an error exactly when a length does not fit in a `u32`.
#[verifier::external_body]
pub(crate) fn borsh_tx_fields(
    code: &Vec<u8>,
    data: &Option<Vec<u8>>,
    signature: &Option<Vec<u8>>,
) -> (r: Option<Vec<u8>>)
    ensures
        r is Some <==> (fits_prefix(code@) && opt_fits_prefix(opt_view(*data))
            && opt_fits_prefix(opt_view(*signature))),
        r is Some ==> r->0@ == len_prefixed(code@) + opt_field(opt_view(*data)) + opt_field(
            opt_view(*signature),
        ),
{
    borsh::to_vec(&(code, data, signature)).ok()
}

/// Relies on `borsh::to_vec` for a tuple of three strings and a `u64`: each
/// string as its length-prefixed UTF-8 bytes, the integer as eight
/// little-endian bytes; an error exactly when a length does not fit in a `u32`.
#[verifier::external_body]
pub(crate) fn borsh_transfer_fields(source: &str, target: &str, token: &str, amount: u64) -> (r:
    Option<Vec<u8>>)
    ensures
        r is Some <==> (fits_prefix(encode_utf8(source@)) && fits_prefix(encode_utf8(target@))
            && fits_prefix(encode_utf8(token@))),
        r is Some ==> r->0@ == str_field(source@) + str_field(target@) + str_field(token@)
            + le_bytes(amount as nat, 8),
{
    borsh::to_vec(&(source, target, token, amount)).ok()
}

/// Relies on `borsh::to_vec` for a tuple of a string and a byte vector: the
/// string's length-prefixed UTF-8 bytes, then the length-prefixed vector; an
/// error exactly when a length does not fit in a `u32`.
#[verifier::external_body]
pub(crate) fn borsh_update_vp_fields(addr: &str, vp_code: &Vec<u8>) -> (r: Option<Vec<u8>>)
    ensures
        r is Some <==> (fits_prefix(encode_utf8(addr@)) && fits_prefix(vp_code@)),
        r is Some ==> r->0@ == str_field(addr@) + len_prefixed(vp_code@),
{
    borsh::to_vec(&(addr, vp_code)).ok()
}

/// The SHA-256 digest of a byte string.
pub uninterp spec fn sha256_of(b: Seq<u8>) -> Seq<u8>;

/// Relies on tendermint's default `Sha256::digest`: the SHA-256 digest of the
/// bytes, which depends on them alone.
#[verifier::external_body]
pub(crate) fn sha256_digest(b: &[u8]) -> (r: [u8; 32])
    ensures
        r@ == sha256_of(b@),
{
    <tendermint::crypto::default::Sha256 as tendermint::crypto::Sha256>::digest(b)
}

/// The upper-case hexadecimal digit for a value below sixteen.
pub open spec fn hex_digit(n: u8) -> char {
    if n < 10 {
        (n + 48) as char
    } else {
        (n + 55) as char
    }
}

/// Two upper-case hexadecimal digits per byte, high nibble first.
pub open spec fn upper_hex(b: Seq<u8>) -> Seq<char>
    decreases b.len(),
{
    if b.len() == 0 {
        Seq::empty()
    } else {
        seq![hex_digit(b[0] / 16), hex_digit(b[0] % 16)] + upper_hex(b.drop_first())
    }
}

/// Relies on the `Display` of `tendermint::Hash::Sha256`: the digest in
/// upper-case hexadecimal.
#[verifier::external_body]
pub(crate) fn sha256_hex(d: [u8; 32]) -> (r: String)
    ensures
        r@ == upper_hex(d@),
{
    tendermint::Hash::Sha256(d).to_string()
}

/// Whether a text needs no escaping inside a single-quoted query operand.
pub open spec fn plain_operand(s: Seq<char>) -> bool {
    forall|i: int| 0 <= i < s.len() ==> s[i] != '\'' && s[i] != '\\'
}

/// The query that selects the transaction events whose hash is `h`.
pub open spec fn tx_query_text(h: Seq<char>) -> Seq<char> {
    "tm.event = 'Tx' AND tx.hash = '"@ + h + "'"@
}

/// Relies on `tendermint_rpc::query::Query`: `Query::from(EventType::Tx)`
/// with the condition `and_eq("tx.hash", h)`, rendered by its `Display`,
/// which quotes a string operand and escapes only quotes and backslashes.
#[verifier::external_body]
pub(crate) fn tx_hash_query(h: &str) -> (r: String)
    requires
        plain_operand(h@),
    ensures
        r@ == tx_query_text(h@),
{
    tendermint_rpc::query::Query::from(tendermint_rpc::query::EventType::Tx).and_eq(
        "tx.hash",
        h.to_string(),
    ).to_string()
}

proof fn lemma_hex_digit_plain(n: u8)
    requires
        n < 16,
    ensures
        hex_digit(n) != '\'' && hex_digit(n) != '\\',
{
}

/// Hexadecimal text never needs escaping in a query operand.
pub proof fn lemma_upper_hex_plain(b: Seq<u8>)
    ensures
        plain_operand(upper_hex(b)),
        upper_hex(b).len() == 2 * b.len(),
    decreases b.len(),
{
    if b.len() > 0 {
        lemma_upper_hex_plain(b.drop_first());
        lemma_hex_digit_plain(b[0] / 16);
        lemma_hex_digit_plain(b[0] % 16);
        let h = upper_hex(b);
        let t = upper_hex(b.drop_first());
        assert(h == seq![hex_digit(b[0] / 16), hex_digit(b[0] % 16)] + t);
        assert forall|i: int| 0 <= i < h.len() implies h[i] != '\'' && h[i] != '\\' by {
            if i >= 2 {
                assert(h[i] == t[i - 2]);
            }
        }
    }
}

/// The query text for the transaction whose serialized bytes are `b`.
pub open spec fn query_for(b: Seq<u8>) -> Seq<char> {
    tx_query_text(upper_hex(sha256_of(b)))
}

/// Builds the subscription query for the transaction whose serialized bytes
/// are `bytes`: events of kind `Tx` whose hash is the SHA-256 digest of
/// exactly those bytes.
pub fn tx_query_for(bytes: &[u8]) -> (r: String)
    ensures
        r@ == query_for(bytes@),
{
    let d = sha256_digest(bytes);
    let h = sha256_hex(d);
    proof {
        lemma_upper_hex_plain(d@);
    }
    tx_hash_query(h.as_str())
}

} // verus!
