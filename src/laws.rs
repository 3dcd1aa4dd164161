//! What holds of every encoding.
use vstd::prelude::*;

use crate::address::address_of_text;
use crate::liquidity_party::encoded_swap;
use crate::models::{first_position, is_first_position, lemma_first_position_found, lemma_first_position_unique};

verus! {

/// Encoding a swap between two tokens of a pool gives 63 bytes: the pool address in bytes 0 to
/// 19, the input token in bytes 20 to 39, the input token's position in the pool in byte 40,
/// the output token's in byte 41, the receiver in bytes 42 to 61 and the transfer type in byte 62.
pub proof fn lemma_packed_layout(
    id: Seq<char>,
    tokens: Seq<Seq<u8>>,
    token_in: Seq<u8>,
    token_out: Seq<u8>,
    receiver: Seq<u8>,
    transfer: u8,
)
    requires
        address_of_text(id) is Some,
        tokens.contains(token_in),
        tokens.contains(token_out),
        token_in.len() == 20,
        receiver.len() == 20,
        first_position(tokens, token_in)->0 < 256,
        first_position(tokens, token_out)->0 < 256,
    ensures
        encoded_swap(id, tokens, token_in, token_out, receiver, transfer) matches Ok(out) && {
            &&& out.len() == 63
            &&& out.subrange(0, 20) == address_of_text(id)->0
            &&& out.subrange(20, 40) == token_in
            &&& out[40] == first_position(tokens, token_in)->0
            &&& out[41] == first_position(tokens, token_out)->0
            &&& out.subrange(42, 62) == receiver
            &&& out[62] == transfer
        },
{
    lemma_first_position_found(tokens, token_in);
    lemma_first_position_found(tokens, token_out);
    let pool = address_of_text(id)->0;
    let out = encoded_swap(id, tokens, token_in, token_out, receiver, transfer)->Ok_0;
    assert(out.subrange(0, 20) =~= pool);
    assert(out.subrange(20, 40) =~= token_in);
    assert(out.subrange(42, 62) =~= receiver);
}

/// A token's position is its place in the pool's list: where two tokens that each occur once
/// in the list trade places, each is found where the other stood.
pub proof fn lemma_position_follows_order(tokens: Seq<Seq<u8>>, i: int, j: int)
    requires
        0 <= i < tokens.len(),
        0 <= j < tokens.len(),
        forall|k: int| 0 <= k < tokens.len() && tokens[k] == tokens[i] ==> k == i,
        forall|k: int| 0 <= k < tokens.len() && tokens[k] == tokens[j] ==> k == j,
    ensures
        first_position(tokens, tokens[i]) == Some(i),
        first_position(tokens, tokens[j]) == Some(j),
        first_position(tokens.update(i, tokens[j]).update(j, tokens[i]), tokens[i]) == Some(j),
        first_position(tokens.update(i, tokens[j]).update(j, tokens[i]), tokens[j]) == Some(i),
{
    let swapped = tokens.update(i, tokens[j]).update(j, tokens[i]);
    assert(is_first_position(tokens, tokens[i], i));
    assert(is_first_position(tokens, tokens[j], j));
    lemma_first_position_unique(tokens, tokens[i], i);
    lemma_first_position_unique(tokens, tokens[j], j);
    assert(is_first_position(swapped, tokens[i], j));
    assert(is_first_position(swapped, tokens[j], i));
    lemma_first_position_unique(swapped, tokens[i], j);
    lemma_first_position_unique(swapped, tokens[j], i);
}

/// Over one token list, equal calldata comes only from equal swaps: the same pool address,
/// input and output tokens, receiver and transfer type.
pub proof fn lemma_encoding_injective(
    id1: Seq<char>,
    id2: Seq<char>,
    tokens: Seq<Seq<u8>>,
    in1: Seq<u8>,
    in2: Seq<u8>,
    out1: Seq<u8>,
    out2: Seq<u8>,
    receiver1: Seq<u8>,
    receiver2: Seq<u8>,
    transfer1: u8,
    transfer2: u8,
)
    requires
        in1.len() == 20,
        in2.len() == 20,
        receiver1.len() == 20,
        receiver2.len() == 20,
        encoded_swap(id1, tokens, in1, out1, receiver1, transfer1) is Ok,
        encoded_swap(id1, tokens, in1, out1, receiver1, transfer1) == encoded_swap(
            id2,
            tokens,
            in2,
            out2,
            receiver2,
            transfer2,
        ),
    ensures
        address_of_text(id1) == address_of_text(id2),
        in1 == in2,
        out1 == out2,
        receiver1 == receiver2,
        transfer1 == transfer2,
{
    lemma_first_position_found(tokens, out1);
    lemma_first_position_found(tokens, out2);
    let b = encoded_swap(id1, tokens, in1, out1, receiver1, transfer1)->Ok_0;
    let p1 = address_of_text(id1)->0;
    let p2 = address_of_text(id2)->0;
    let o1 = first_position(tokens, out1)->0;
    let o2 = first_position(tokens, out2)->0;
    assert(p1 =~= b.subrange(0, 20));
    assert(p2 =~= b.subrange(0, 20));
    assert(in1 =~= b.subrange(20, 40));
    assert(in2 =~= b.subrange(20, 40));
    assert(receiver1 =~= b.subrange(42, 62));
    assert(receiver2 =~= b.subrange(42, 62));
    assert(b[41] == o1 as u8);
    assert(b[41] == o2 as u8);
    assert(o1 == o2);
    assert(b[62] == transfer1);
    assert(b[62] == transfer2);
}

} // verus!
