use vstd::prelude::*;

verus! {

/// The BLAKE3 digest of a byte sequence: 32 bytes, a function of the input
/// alone, identical in every process and on every machine.
pub uninterp spec fn blake3_of(bytes: Seq<u8>) -> Seq<u8>;

/// Relies on blake3::hash: a 256-bit cryptographic digest of the input.
#[verifier::external_body]
pub fn blake3_hash(input: &Vec<u8>) -> (r: Vec<u8>)
    ensures
        r@ == blake3_of(input@),
        r@.len() == 32,
{
    blake3::hash(input.as_slice()).as_bytes().to_vec()
}

/// What a std DefaultHasher yields after hashing the two strings in order.
pub uninterp spec fn source_key_hash(machine: Seq<char>, original: Seq<char>) -> u64;

/// Relies on std's DefaultHasher, SipHash-1-3 with a fixed zero key: the
/// digest of the two strings, hashed in order, depends on their characters
/// alone. It is the routing key of every record of one source file.
#[verifier::external_body]
pub fn hash_source_key(machine: &str, original: &str) -> (r: u64)
    ensures
        r == source_key_hash(machine@, original@),
{
    let mut hasher = std::hash::DefaultHasher::new();
    std::hash::Hash::hash(machine, &mut hasher);
    std::hash::Hash::hash(original, &mut hasher);
    std::hash::Hasher::finish(&hasher)
}

/// What a std DefaultHasher yields after hashing one string.
pub uninterp spec fn str_sort_hash(s: Seq<char>) -> u64;

/// Relies on std's DefaultHasher, SipHash-1-3 with a fixed zero key: the
/// digest depends on the string's characters alone. It orders tabular rows
/// whose sort column holds text.
#[verifier::external_body]
pub fn hash_sort_string(s: &str) -> (r: u64)
    ensures
        r == str_sort_hash(s@),
{
    let mut hasher = std::hash::DefaultHasher::new();
    std::hash::Hash::hash(s, &mut hasher);
    std::hash::Hasher::finish(&hasher)
}

} // verus!
