use vstd::prelude::*;

verus! {

/// The SHA-256 digest of a byte sequence.
pub uninterp spec fn sha256_of(data: Seq<u8>) -> Seq<u8>;

/// Lower-case hexadecimal digit for a value below 16.
pub open spec fn hex_digit(d: int) -> char {
    if d < 10 {
        (d + 48) as char
    } else {
        (d + 87) as char
    }
}

/// Lower-case hexadecimal text of a byte sequence, two digits per byte.
pub open spec fn hex_of(b: Seq<u8>) -> Seq<char> {
    Seq::new(
        2 * b.len(),
        |k: int|
            if k % 2 == 0 {
                hex_digit(b[k / 2] as int / 16)
            } else {
                hex_digit(b[k / 2] as int % 16)
            },
    )
}

/// The identity bytes of the anonymous principal.
pub open spec fn anonymous_bytes() -> Seq<u8> {
    seq![4u8]
}

/// Relies on sha2's `Sha256::digest`: the 32-byte SHA-256 digest of the input.
#[verifier::external_body]
fn sha256(data: &Vec<u8>) -> (r: Vec<u8>)
    ensures
        r@ == sha256_of(data@),
        r@.len() == 32,
{
    <sha2::Sha256 as sha2::Digest>::digest(data.as_slice()).to_vec()
}

/// Relies on `hex::encode`: two lower-case hexadecimal digits per byte.
#[verifier::external_body]
fn hex_encode(b: &Vec<u8>) -> (r: String)
    ensures
        r@ == hex_of(b@),
{
    hex::encode(b.as_slice())
}

/// Relies on candid's `Principal::anonymous`: the principal of one byte, 4.
#[verifier::external_body]
pub(crate) fn anonymous_principal() -> (r: crate::types::Identity)
    ensures
        r@ == anonymous_bytes(),
{
    crate::types::Identity { bytes: candid::Principal::anonymous().as_slice().to_vec() }
}

/// Big-endian bytes of a 64-bit value.
pub open spec fn be_bytes(t: u64) -> Seq<u8> {
    seq![
        (t >> 56u64) as u8,
        (t >> 48u64) as u8,
        (t >> 40u64) as u8,
        (t >> 32u64) as u8,
        (t >> 24u64) as u8,
        (t >> 16u64) as u8,
        (t >> 8u64) as u8,
        t as u8,
    ]
}

/// Big-endian bytes of `t` followed by `tail`.
pub fn be_bytes_then(t: u64, tail: &Vec<u8>) -> (r: Vec<u8>)
    ensures
        r@ == be_bytes(t) + tail@,
{
    let mut r: Vec<u8> = vec![
        (t >> 56u64) as u8,
        (t >> 48u64) as u8,
        (t >> 40u64) as u8,
        (t >> 32u64) as u8,
        (t >> 24u64) as u8,
        (t >> 16u64) as u8,
        (t >> 8u64) as u8,
        t as u8,
    ];
    let ghost head = r@;
    assert(head =~= be_bytes(t));
    let mut i: usize = 0;
    while i < tail.len()
        invariant
            0 <= i <= tail@.len(),
            r@ == head + tail@.subrange(0, i as int),
        decreases tail@.len() - i,
    {
        r.push(tail[i]);
        i = i + 1;
        assert(r@ =~= head + tail@.subrange(0, i as int));
    }
    assert(tail@.subrange(0, tail@.len() as int) =~= tail@);
    r
}

/// Hexadecimal text of the first `n` bytes of `data`'s SHA-256 digest.
pub open spec fn digest_prefix_hex(data: Seq<u8>, n: int) -> Seq<char> {
    hex_of(sha256_of(data).take(n))
}

/// Hexadecimal text of the first `n` bytes of `digest`.
pub fn hex_prefix(digest: &Vec<u8>, n: usize) -> (r: String)
    requires
        n <= digest@.len(),
    ensures
        r@ == hex_of(digest@.take(n as int)),
        r@.len() == 2 * n,
{
    let mut p: Vec<u8> = Vec::new();
    let mut i: usize = 0;
    while i < n
        invariant
            n <= digest@.len(),
            0 <= i <= n,
            p@ == digest@.take(i as int),
        decreases n - i,
    {
        p.push(digest[i]);
        i = i + 1;
        assert(p@ =~= digest@.take(i as int));
    }
    hex_encode(&p)
}

fn digest_prefix(data: &Vec<u8>, n: usize) -> (r: String)
    requires
        n <= 32,
    ensures
        r@ == digest_prefix_hex(data@, n as int),
        r@.len() == 2 * n,
{
    let d = sha256(data);
    hex_prefix(&d, n)
}

/// Item id derived from a timestamp and caller-supplied entropy: the first
/// eight bytes of SHA-256(big-endian timestamp ++ entropy), in hex.
pub open spec fn item_id_of(now: u64, entropy: Seq<u8>) -> Seq<char> {
    digest_prefix_hex(be_bytes(now) + entropy, 8)
}

/// Audit fingerprint: the first sixteen bytes of
/// SHA-256(big-endian timestamp ++ identity bytes), in hex.
pub open spec fn transaction_hash_of(timestamp: u64, who: Seq<u8>) -> Seq<char> {
    digest_prefix_hex(be_bytes(timestamp) + who, 16)
}

/// Derives a candidate item id from the clock reading and request entropy.
pub fn generate_unique_nft_id(now: u64, entropy: &Vec<u8>) -> (r: String)
    ensures
        r@ == item_id_of(now, entropy@),
        r@.len() == 16,
{
    let data = be_bytes_then(now, entropy);
    digest_prefix(&data, 8)
}

/// Derives the audit fingerprint of a transaction.
pub fn generate_transaction_hash(timestamp: u64, who: &crate::types::Identity) -> (r: String)
    ensures
        r@ == transaction_hash_of(timestamp, who@),
        r@.len() == 32,
{
    let data = be_bytes_then(timestamp, &who.bytes);
    digest_prefix(&data, 16)
}

} // verus!
