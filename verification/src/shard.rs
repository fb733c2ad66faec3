//! Spreading the live flows over shards. A flow always falls into the same
//! shard, so flows of different shards can be accounted for side by side:
//! who shares the live state between tasks guards each shard on its own.

use vstd::prelude::*;
use vstd::utf8::encode_utf8;

verus! {

/// Shards that the live state is spread over.
pub const SHARD_COUNT: usize = 16;

/// A number made of the bytes of a text: each byte is added to 31 times the
/// number of the bytes before it, within 64 bits.
pub open spec fn text_hash(bytes: Seq<u8>) -> u64
    decreases bytes.len(),
{
    if bytes.len() == 0 {
        0
    } else {
        ((text_hash(bytes.drop_last()) * 31 + bytes.last()) % 0x1_0000_0000_0000_0000) as u64
    }
}

/// The shard, of `shards`, that the flow `key` falls into; the first where
/// there are no shards to choose from.
pub open spec fn shard_index(key: Seq<char>, shards: usize) -> int {
    if shards == 0 {
        0
    } else {
        text_hash(encode_utf8(key)) as int % shards as int
    }
}

/// The shard that the flow `key` falls into.
pub fn shard_of(key: &str, shards: usize) -> (shard: usize)
    ensures
        shard == shard_index(key@, shards),
        shards > 0 ==> shard < shards,
{
    if shards == 0 {
        return 0;
    }
    let bytes = key.as_bytes();
    let mut hash: u64 = 0;
    let mut i: usize = 0;
    while i < bytes.len()
        invariant
            0 <= i <= bytes@.len(),
            hash == text_hash(bytes@.take(i as int)),
        decreases bytes@.len() - i,
    {
        assert(bytes@.take(i + 1).drop_last() =~= bytes@.take(i as int));
        let wide: u128 = hash as u128 * 31 + bytes[i] as u128;
        hash = (wide % 0x1_0000_0000_0000_0000u128) as u64;
        i = i + 1;
    }
    assert(bytes@.take(bytes@.len() as int) =~= bytes@);
    (hash % shards as u64) as usize
}

} // verus!
