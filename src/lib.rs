//! Packed calldata encoding of single swaps through Liquidity Party pools.
mod address;
mod encoder;
mod error;
mod liquidity_party;
mod laws;
mod models;

pub use address::Address;
pub use encoder::SwapEncoder;
pub use error::EncodingError;
pub use liquidity_party::LiquidityPartySwapEncoder;
pub use models::{token_position, EncodingContext, ProtocolComponent, Swap, TransferType};
pub use laws::{lemma_encoding_injective, lemma_packed_layout, lemma_position_follows_order};
