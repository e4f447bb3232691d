use vstd::prelude::*;

use crate::bytes::{le_bytes, le_value, lemma_le_bytes_len, lemma_le_value_of_bytes, pow256};

verus! {

/// A length prefix: the count as eight little-endian bytes.
pub open spec fn length_prefix(n: nat) -> Seq<u8> {
    le_bytes(n, 8)
}

/// The journal an epoch commits to: its predecessor key, then its successor key,
/// each as a length-prefixed byte string.
pub open spec fn journal_bytes(predecessor: Seq<u8>, successor: Seq<u8>) -> Seq<u8> {
    length_prefix(predecessor.len()) + predecessor + length_prefix(successor.len()) + successor
}

/// What a journal decodes to: the two keys, read from the front of `s`; bytes after
/// the second key are ignored.
pub open spec fn parse_journal(s: Seq<u8>) -> Option<(Seq<u8>, Seq<u8>)> {
    if s.len() < 8 {
        None
    } else {
        let n1 = le_value(s.subrange(0, 8)) as int;
        if s.len() < 16 + n1 {
            None
        } else {
            let n2 = le_value(s.subrange(8 + n1, 16 + n1)) as int;
            if s.len() < 16 + n1 + n2 {
                None
            } else {
                Some((s.subrange(8, 8 + n1), s.subrange(16 + n1, 16 + n1 + n2)))
            }
        }
    }
}

/// Relies on bincode::serialize: a pair of byte vectors is written as each vector's
/// length in eight little-endian bytes followed by its bytes.
#[verifier::external_body]
fn bincode_serialize_pair(predecessor: &Vec<u8>, successor: &Vec<u8>) -> (r: Vec<u8>)
    ensures
        r@ == journal_bytes(predecessor@, successor@),
{
    bincode::serialize(&(predecessor, successor)).expect("byte vectors always serialize")
}

/// Relies on bincode::deserialize: a pair of byte vectors is read back from the
/// length-prefixed layout; it fails when the input ends too early, and ignores
/// trailing bytes.
#[verifier::external_body]
fn bincode_deserialize_pair(bytes: &[u8]) -> (r: Option<(Vec<u8>, Vec<u8>)>)
    ensures
        match r {
            Some((a, b)) => parse_journal(bytes@) == Some((a@, b@)),
            None => parse_journal(bytes@) is None,
        },
{
    bincode::deserialize::<(Vec<u8>, Vec<u8>)>(bytes).ok()
}

/// The journal committing the pair (predecessor, successor).
pub fn encode_journal(predecessor: &Vec<u8>, successor: &Vec<u8>) -> (r: Vec<u8>)
    ensures
        r@ == journal_bytes(predecessor@, successor@),
{
    bincode_serialize_pair(predecessor, successor)
}

/// The pair (predecessor, successor) a journal commits to, if it is well formed.
pub fn decode_journal(bytes: &[u8]) -> (r: Option<(Vec<u8>, Vec<u8>)>)
    ensures
        match r {
            Some((a, b)) => parse_journal(bytes@) == Some((a@, b@)),
            None => parse_journal(bytes@) is None,
        },
{
    bincode_deserialize_pair(bytes)
}

/// Decoding an encoded journal gives back the two keys it was built from.
pub proof fn lemma_journal_round_trip(predecessor: Seq<u8>, successor: Seq<u8>)
    requires
        predecessor.len() < pow256(8),
        successor.len() < pow256(8),
    ensures
        parse_journal(journal_bytes(predecessor, successor)) == Some((predecessor, successor)),
{
    let n1 = predecessor.len() as int;
    let n2 = successor.len() as int;
    let p1 = length_prefix(predecessor.len());
    let p2 = length_prefix(successor.len());
    lemma_le_bytes_len(predecessor.len(), 8);
    lemma_le_bytes_len(successor.len(), 8);
    lemma_le_value_of_bytes(predecessor.len(), 8);
    lemma_le_value_of_bytes(successor.len(), 8);
    let s = journal_bytes(predecessor, successor);
    assert(s.subrange(0, 8) =~= p1);
    assert(s.subrange(8 + n1, 16 + n1) =~= p2);
    assert(s.subrange(8, 8 + n1) =~= predecessor);
    assert(s.subrange(16 + n1, 16 + n1 + n2) =~= successor);
}

} // verus!
