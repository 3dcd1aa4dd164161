//! The encoder for Liquidity Party pools and the packed layout of its calldata.
use alloy::sol_types::SolValue;
use std::collections::HashMap;
use vstd::prelude::*;

use crate::address::{address_of_text, Address};
use crate::encoder::SwapEncoder;
use crate::error::EncodingError;
use crate::models::{first_position, lemma_first_position_found, token_position, EncodingContext, Swap};

verus! {

/// The text of the error for a pool identifier that is not an address.
pub open spec fn invalid_component_id_message() -> Seq<char> {
    "LiqP swap encoder: invalid component id"@
}

/// The text of the error for an input token that the pool does not hold.
pub open spec fn token_in_missing_message() -> Seq<char> {
    "Token in not found in pool tokens"@
}

/// The text of the error for an output token that the pool does not hold.
pub open spec fn token_out_missing_message() -> Seq<char> {
    "Token out not found in pool tokens"@
}

/// The text of the error for a token whose position in the pool does not fit in one byte.
pub open spec fn index_too_large_message() -> Seq<char> {
    "Token index does not fit in one byte"@
}

/// The packed calldata: pool address, input token, input index, output index, receiver and
/// transfer type, each in its own width and with no padding.
pub open spec fn packed_swap(
    pool: Seq<u8>,
    token_in: Seq<u8>,
    in_index: u8,
    out_index: u8,
    receiver: Seq<u8>,
    transfer: u8,
) -> Seq<u8> {
    pool + token_in + seq![in_index] + seq![out_index] + receiver + seq![transfer]
}

/// The calldata of a swap from `token_in` to `token_out` through the pool with identifier
/// `id` and tokens `tokens`, or the text of the error that stops it.
pub open spec fn encoded_swap(
    id: Seq<char>,
    tokens: Seq<Seq<u8>>,
    token_in: Seq<u8>,
    token_out: Seq<u8>,
    receiver: Seq<u8>,
    transfer: u8,
) -> Result<Seq<u8>, Seq<char>> {
    match address_of_text(id) {
        None => Err(invalid_component_id_message()),
        Some(pool) => match (first_position(tokens, token_in), first_position(tokens, token_out)) {
            (None, _) => Err(token_in_missing_message()),
            (Some(_), None) => Err(token_out_missing_message()),
            (Some(i), Some(o)) => if i < 256 && o < 256 {
                Ok(packed_swap(pool, token_in, i as u8, o as u8, receiver, transfer))
            } else {
                Err(index_too_large_message())
            },
        },
    }
}

/// What `encode_swap` gives for `swap` and `context`.
pub open spec fn encoded_swap_of(swap: Swap, context: EncodingContext) -> Result<Seq<u8>, Seq<char>> {
    encoded_swap(
        swap.component.id@,
        swap.component.token_views(),
        swap.token_in@,
        swap.token_out@,
        context.receiver@,
        context.transfer_type.spec_code(),
    )
}

/// Relies on alloy's `SolValue::abi_encode_packed` on a tuple of (address, address, bytes1,
/// bytes1, address, bytes1): the fields one after the other, each in its own width.
/// `alloy::primitives::Address::from_slice` panics on a slice that is not twenty bytes long.
#[verifier::external_body]
fn abi_encode_packed_fields(
    pool: &[u8],
    token_in: &[u8],
    in_index: u8,
    out_index: u8,
    receiver: &[u8],
    transfer: u8,
) -> (r: Vec<u8>)
    requires
        pool@.len() == 20,
        token_in@.len() == 20,
        receiver@.len() == 20,
    ensures
        r@ == packed_swap(pool@, token_in@, in_index, out_index, receiver@, transfer),
{
    let args = (
        alloy::primitives::Address::from_slice(pool),
        alloy::primitives::Address::from_slice(token_in),
        in_index.to_be_bytes(),
        out_index.to_be_bytes(),
        alloy::primitives::Address::from_slice(receiver),
        transfer.to_be_bytes(),
    );
    args.abi_encode_packed()
}

/// Encodes a swap on a Liquidity Party pool for the executor contract at its address.
#[derive(Debug)]
pub struct LiquidityPartySwapEncoder {
    executor_address: Address,
}

impl View for LiquidityPartySwapEncoder {
    type V = Seq<u8>;

    /// The executor's address.
    closed spec fn view(&self) -> Seq<u8> {
        self.executor_address@
    }
}

impl Clone for LiquidityPartySwapEncoder {
    fn clone(&self) -> (r: LiquidityPartySwapEncoder)
        ensures
            r@ == self@,
    {
        LiquidityPartySwapEncoder { executor_address: self.executor_address.clone() }
    }
}

impl LiquidityPartySwapEncoder {
    /// The input token of `swap` with the positions of its two tokens in the pool.
    fn get_token_indexes(&self, swap: &Swap) -> (r: Result<(Address, u8, u8), EncodingError>)
        ensures
            match (
                first_position(swap.component.token_views(), swap.token_in@),
                first_position(swap.component.token_views(), swap.token_out@),
            ) {
                (None, _) => r is Err && r->Err_0.message() == token_in_missing_message(),
                (Some(_), None) => r is Err && r->Err_0.message() == token_out_missing_message(),
                (Some(i), Some(o)) => if i < 256 && o < 256 {
                    r matches Ok((t, ri, ro)) && t@ == swap.token_in@ && ri == i && ro == o
                } else {
                    r is Err && r->Err_0.message() == index_too_large_message()
                },
            },
    {
        let tokens = &swap.component.tokens;
        let token_in_idx = match token_position(tokens, &swap.token_in) {
            Some(i) => i,
            None => {
                return Err(EncodingError::fatal("Token in not found in pool tokens"));
            },
        };
        let token_out_idx = match token_position(tokens, &swap.token_out) {
            Some(i) => i,
            None => {
                return Err(EncodingError::fatal("Token out not found in pool tokens"));
            },
        };
        if token_in_idx > 255 || token_out_idx > 255 {
            return Err(EncodingError::fatal("Token index does not fit in one byte"));
        }
        Ok((swap.token_in.clone(), token_in_idx as u8, token_out_idx as u8))
    }

    /// A new handle on an encoder for the same executor.
    pub fn clone_box(&self) -> Box<dyn SwapEncoder> {
        Box::new(self.clone())
    }
}

impl SwapEncoder for LiquidityPartySwapEncoder {
    open spec fn executor_view(&self) -> Seq<u8> {
        self@
    }

    /// The encoder for the executor at `executor_address`; the chain and the settings play no
    /// part in it.
    fn new(
        executor_address: Address,
        _chain: tycho_common::models::Chain,
        _config: Option<HashMap<String, String>>,
    ) -> (r: Result<LiquidityPartySwapEncoder, EncodingError>)
        ensures
            r matches Ok(e) && e@ == executor_address@,
    {
        Ok(LiquidityPartySwapEncoder { executor_address })
    }

    /// The packed calldata of `swap`, whatever the encoder's executor is.
    fn encode_swap(&self, swap: &Swap, encoding_context: &EncodingContext) -> (r: Result<
        Vec<u8>,
        EncodingError,
    >)
        ensures
            match encoded_swap_of(*swap, *encoding_context) {
                Ok(b) => r matches Ok(v) && v@ == b,
                Err(m) => r matches Err(e) && e.message() == m,
            },
            address_of_text(swap.component.id@) is None ==> r is Err && r->Err_0.message()
                == invalid_component_id_message(),
            address_of_text(swap.component.id@) is Some && !swap.component.token_views().contains(
                swap.token_in@,
            ) ==> r is Err && r->Err_0.message() == token_in_missing_message(),
            address_of_text(swap.component.id@) is Some && swap.component.token_views().contains(
                swap.token_in@,
            ) && !swap.component.token_views().contains(swap.token_out@) ==> r is Err
                && r->Err_0.message() == token_out_missing_message(),
    {
        proof {
            lemma_first_position_found(swap.component.token_views(), swap.token_in@);
            lemma_first_position_found(swap.component.token_views(), swap.token_out@);
        }
        let pool_addr = match Address::from_hex(swap.component.id.as_str()) {
            Some(a) => a,
            None => {
                return Err(EncodingError::fatal("LiqP swap encoder: invalid component id"));
            },
        };
        let (token_in, token_in_idx, token_out_idx) = match self.get_token_indexes(swap) {
            Ok(t) => t,
            Err(e) => {
                return Err(e);
            },
        };
        Ok(
            abi_encode_packed_fields(
                pool_addr.as_bytes(),
                token_in.as_bytes(),
                token_in_idx,
                token_out_idx,
                encoding_context.receiver.as_bytes(),
                encoding_context.transfer_type.code(),
            ),
        )
    }

    fn executor_address(&self) -> (r: &Address) {
        &self.executor_address
    }
}

} // verus!
