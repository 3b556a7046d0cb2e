//! The FNV-1a hash, by which `prometheus` tells collectors and counters apart.

use vstd::prelude::*;
use vstd::utf8::{encode_utf8, is_ascii_chars_encode_utf8};

verus! {

/// The hash of no bytes.
pub const FNV1A_START: u64 = 0xcbf2_9ce4_8422_2325;

/// The hash after one more byte: the product wraps around at 64 bits.
pub open spec fn fnv1a_step(hash: u64, byte: u8) -> u64 {
    ((hash ^ (byte as u64)) * 0x100_0000_01b3u64) as u64
}

/// The 64-bit FNV-1a hash of bytes.
pub open spec fn fnv1a(bytes: Seq<u8>) -> u64
    decreases bytes.len(),
{
    if bytes.len() == 0 {
        FNV1A_START
    } else {
        fnv1a_step(fnv1a(bytes.drop_last()), bytes.last())
    }
}

/// The hash after four more bytes.
spec fn after_four(hash: u64, a: u8, b: u8, c: u8, d: u8) -> u64 {
    fnv1a_step(fnv1a_step(fnv1a_step(fnv1a_step(hash, a), b), c), d)
}

/// The hash of the first bytes of a list, one byte further on.
proof fn lemma_one_more(bytes: Seq<u8>, n: int)
    requires
        0 <= n < bytes.len(),
    ensures
        fnv1a(bytes.take(n + 1)) == fnv1a_step(fnv1a(bytes.take(n)), bytes[n]),
{
    assert(bytes.take(n + 1).drop_last() =~= bytes.take(n));
}

/// The hash of the first bytes of a list, four bytes further on.
proof fn lemma_four_more(bytes: Seq<u8>, n: int)
    requires
        0 <= n,
        n + 4 <= bytes.len(),
    ensures
        fnv1a(bytes.take(n + 4)) == after_four(
            fnv1a(bytes.take(n)),
            bytes[n],
            bytes[n + 1],
            bytes[n + 2],
            bytes[n + 3],
        ),
{
    lemma_one_more(bytes, n);
    lemma_one_more(bytes, n + 1);
    lemma_one_more(bytes, n + 2);
    lemma_one_more(bytes, n + 3);
}

/// The hash of `http_requests_total`, with a separator behind it.
pub(crate) proof fn lemma_hash_of_http_requests_total()
    ensures
        fnv1a(encode_utf8("http_requests_total"@).push(0xff)) == 0x4217_265b_99da_9aceu64,
{
    reveal_strlit("http_requests_total");
    is_ascii_chars_encode_utf8("http_requests_total"@);
    let bytes = encode_utf8("http_requests_total"@).push(0xff);
    assert(bytes.take(0) =~= Seq::empty());
    assert(bytes.take(20) =~= bytes);
    lemma_four_more(bytes, 0);
    lemma_four_more(bytes, 4);
    lemma_four_more(bytes, 8);
    lemma_four_more(bytes, 12);
    lemma_four_more(bytes, 16);
    assert({
        let h = after_four(0xcbf2_9ce4_8422_2325, 104, 116, 116, 112);
        let h = after_four(h, 95, 114, 101, 113);
        let h = after_four(h, 117, 101, 115, 116);
        let h = after_four(h, 115, 95, 116, 111);
        let h = after_four(h, 116, 97, 108, 0xff);
        h == 0x4217_265b_99da_9aceu64
    }) by (bit_vector);
}

/// The hash of `payment_events_total`, with a separator behind it.
pub(crate) proof fn lemma_hash_of_payment_events_total()
    ensures
        fnv1a(encode_utf8("payment_events_total"@).push(0xff)) == 0xf6be_60d4_eb3d_4d2fu64,
{
    reveal_strlit("payment_events_total");
    is_ascii_chars_encode_utf8("payment_events_total"@);
    let bytes = encode_utf8("payment_events_total"@).push(0xff);
    assert(bytes.take(0) =~= Seq::empty());
    assert(bytes.take(21) =~= bytes);
    lemma_four_more(bytes, 0);
    lemma_four_more(bytes, 4);
    lemma_four_more(bytes, 8);
    lemma_four_more(bytes, 12);
    lemma_four_more(bytes, 16);
    lemma_one_more(bytes, 20);
    assert({
        let h = after_four(0xcbf2_9ce4_8422_2325, 112, 97, 121, 109);
        let h = after_four(h, 101, 110, 116, 95);
        let h = after_four(h, 101, 118, 101, 110);
        let h = after_four(h, 116, 115, 95, 116);
        let h = after_four(h, 111, 116, 97, 108);
        let h = fnv1a_step(h, 0xff);
        h == 0xf6be_60d4_eb3d_4d2fu64
    }) by (bit_vector);
}

/// The hash of `creator_events_total`, with a separator behind it.
pub(crate) proof fn lemma_hash_of_creator_events_total()
    ensures
        fnv1a(encode_utf8("creator_events_total"@).push(0xff)) == 0xb245_4ac2_fdf3_5509u64,
{
    reveal_strlit("creator_events_total");
    is_ascii_chars_encode_utf8("creator_events_total"@);
    let bytes = encode_utf8("creator_events_total"@).push(0xff);
    assert(bytes.take(0) =~= Seq::empty());
    assert(bytes.take(21) =~= bytes);
    lemma_four_more(bytes, 0);
    lemma_four_more(bytes, 4);
    lemma_four_more(bytes, 8);
    lemma_four_more(bytes, 12);
    lemma_four_more(bytes, 16);
    lemma_one_more(bytes, 20);
    assert({
        let h = after_four(0xcbf2_9ce4_8422_2325, 99, 114, 101, 97);
        let h = after_four(h, 116, 111, 114, 95);
        let h = after_four(h, 101, 118, 101, 110);
        let h = after_four(h, 116, 115, 95, 116);
        let h = after_four(h, 111, 116, 97, 108);
        let h = fnv1a_step(h, 0xff);
        h == 0xb245_4ac2_fdf3_5509u64
    }) by (bit_vector);
}

/// The hash of `sponsor_spend_cents_total`, with a separator behind it.
pub(crate) proof fn lemma_hash_of_sponsor_spend_cents_total()
    ensures
        fnv1a(encode_utf8("sponsor_spend_cents_total"@).push(0xff)) == 0x3d34_7804_02f0_b6b0u64,
{
    reveal_strlit("sponsor_spend_cents_total");
    is_ascii_chars_encode_utf8("sponsor_spend_cents_total"@);
    let bytes = encode_utf8("sponsor_spend_cents_total"@).push(0xff);
    assert(bytes.take(0) =~= Seq::empty());
    assert(bytes.take(26) =~= bytes);
    lemma_four_more(bytes, 0);
    lemma_four_more(bytes, 4);
    lemma_four_more(bytes, 8);
    lemma_four_more(bytes, 12);
    lemma_four_more(bytes, 16);
    lemma_four_more(bytes, 20);
    lemma_one_more(bytes, 24);
    lemma_one_more(bytes, 25);
    assert({
        let h = after_four(0xcbf2_9ce4_8422_2325, 115, 112, 111, 110);
        let h = after_four(h, 115, 111, 114, 95);
        let h = after_four(h, 115, 112, 101, 110);
        let h = after_four(h, 100, 95, 99, 101);
        let h = after_four(h, 110, 116, 115, 95);
        let h = after_four(h, 116, 111, 116, 97);
        let h = fnv1a_step(h, 108);
        let h = fnv1a_step(h, 0xff);
        h == 0x3d34_7804_02f0_b6b0u64
    }) by (bit_vector);
}

} // verus!
