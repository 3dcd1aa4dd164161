//! The capability that every pool-specific swap encoder offers.
use std::collections::HashMap;
use vstd::prelude::*;

use crate::address::Address;
use crate::error::EncodingError;
use crate::models::{EncodingContext, Swap};

verus! {

/// The chain that an encoder is built for, as tycho_common names it.
#[verifier::external_type_specification]
#[verifier::external_body]
pub struct ExChain(tycho_common::models::Chain);

/// Turns one swap through a pool of some type into the calldata that its executor contract
/// expects.
pub trait SwapEncoder {
    /// The address of the executor contract that the encoder targets.
    spec fn executor_view(&self) -> Seq<u8>;

    /// The encoder for the executor at `executor_address` on `chain`, with the settings in
    /// `config` that the pool type recognises.
    fn new(
        executor_address: Address,
        chain: tycho_common::models::Chain,
        config: Option<HashMap<String, String>>,
    ) -> (r: Result<Self, EncodingError>) where Self: Sized
        ensures
            r matches Ok(e) ==> e.executor_view() == executor_address@,
    ;

    /// The calldata of `swap` for the executor.
    fn encode_swap(&self, swap: &Swap, encoding_context: &EncodingContext) -> Result<
        Vec<u8>,
        EncodingError,
    >;

    /// The address of the executor contract that the encoder targets.
    fn executor_address(&self) -> (r: &Address)
        ensures
            r@ == self.executor_view(),
    ;
}

} // verus!
