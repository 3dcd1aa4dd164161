//! What a swap and its encoding context hold.
use vstd::prelude::*;

use crate::address::Address;

verus! {

/// How funds move into the pool for a swap.
#[derive(Clone, Copy, Debug, PartialEq, Eq)]
pub enum TransferType {
    /// The executor pulls the input tokens from the sender.
    TransferFrom,
    /// The input tokens are sent to the pool before the swap.
    Transfer,
    /// No transfer is made: the funds are already in place.
    NoTransfer,
}

impl TransferType {
    /// The byte that stands for the transfer type on the wire.
    pub open spec fn spec_code(self) -> u8 {
        match self {
            TransferType::TransferFrom => 0,
            TransferType::Transfer => 1,
            TransferType::NoTransfer => 2,
        }
    }

    /// The byte that stands for the transfer type on the wire.
    pub fn code(&self) -> (r: u8)
        ensures
            r == self.spec_code(),
    {
        match self {
            TransferType::TransferFrom => 0,
            TransferType::Transfer => 1,
            TransferType::NoTransfer => 2,
        }
    }
}

/// The views of a list of addresses.
pub open spec fn address_views(tokens: Seq<Address>) -> Seq<Seq<u8>> {
    tokens.map_values(|a: Address| a@)
}

/// A liquidity pool: its identifier, which names its address, and its tokens in the pool's
/// own order.
pub struct ProtocolComponent {
    /// The pool's address as hexadecimal text.
    pub id: String,
    /// The pool's tokens; the position of a token is its index in the pool.
    pub tokens: Vec<Address>,
}

impl ProtocolComponent {
    /// The pool's token addresses in order.
    pub open spec fn token_views(self) -> Seq<Seq<u8>> {
        address_views(self.tokens@)
    }
}

/// One hop through a single pool, from one of its tokens to another.
pub struct Swap {
    /// The pool that the swap goes through.
    pub component: ProtocolComponent,
    /// The token that is sold.
    pub token_in: Address,
    /// The token that is bought.
    pub token_out: Address,
}

impl Swap {
    /// The swap from `token_in` to `token_out` through `component`.
    pub fn new(component: ProtocolComponent, token_in: Address, token_out: Address) -> (r: Swap)
        ensures
            r.component == component,
            r.token_in == token_in,
            r.token_out == token_out,
    {
        Swap { component, token_in, token_out }
    }
}

/// What the encoding of a swap needs besides the swap itself.
pub struct EncodingContext {
    /// Who receives the bought tokens.
    pub receiver: Address,
    /// Whether the route is for an exact output amount.
    pub exact_out: bool,
    /// The router that calls the executor, where one is known.
    pub router_address: Option<Address>,
    /// The token that the group of swaps around this one starts from.
    pub group_token_in: Address,
    /// The token that the group of swaps around this one ends in.
    pub group_token_out: Address,
    /// How funds move into the pool.
    pub transfer_type: TransferType,
    /// Whether the swap is replayed against past state.
    pub historical_trade: bool,
}

/// Whether `i` is the first position of `x` in `s`.
pub open spec fn is_first_position(s: Seq<Seq<u8>>, x: Seq<u8>, i: int) -> bool {
    &&& 0 <= i < s.len()
    &&& s[i] == x
    &&& forall|j: int| 0 <= j < i ==> s[j] != x
}

/// The first position of `x` in `s`, or `None` where `s` does not hold it.
pub open spec fn first_position(s: Seq<Seq<u8>>, x: Seq<u8>) -> Option<int> {
    if exists|i: int| is_first_position(s, x, i) {
        Some(choose|i: int| is_first_position(s, x, i))
    } else {
        None
    }
}

/// A first position is the only one.
pub proof fn lemma_first_position_unique(s: Seq<Seq<u8>>, x: Seq<u8>, i: int)
    requires
        is_first_position(s, x, i),
    ensures
        first_position(s, x) == Some(i),
{
    let k = choose|k: int| is_first_position(s, x, k);
    assert(is_first_position(s, x, k));
    assert(!(k < i));
    assert(!(i < k));
}

/// Where `s` holds `x` at `k`, some position at or before `k` is the first.
proof fn lemma_first_position_exists(s: Seq<Seq<u8>>, x: Seq<u8>, k: int)
    requires
        0 <= k < s.len(),
        s[k] == x,
    ensures
        exists|i: int| is_first_position(s, x, i),
    decreases k,
{
    if exists|j: int| 0 <= j < k && s[j] == x {
        let j = choose|j: int| 0 <= j < k && s[j] == x;
        lemma_first_position_exists(s, x, j);
    } else {
        assert(is_first_position(s, x, k));
    }
}

/// `first_position` finds `x` exactly where `s` holds it.
pub proof fn lemma_first_position_found(s: Seq<Seq<u8>>, x: Seq<u8>)
    ensures
        first_position(s, x) is Some <==> s.contains(x),
        first_position(s, x) matches Some(i) ==> is_first_position(s, x, i),
{
    if s.contains(x) {
        let k = choose|k: int| 0 <= k < s.len() && s[k] == x;
        lemma_first_position_exists(s, x, k);
    }
}

/// The position of the first token in `tokens` equal to `token`, or `None` where there is none.
pub fn token_position(tokens: &Vec<Address>, token: &Address) -> (r: Option<usize>)
    ensures
        match r {
            Some(i) => first_position(address_views(tokens@), token@) == Some(i as int),
            None => first_position(address_views(tokens@), token@) is None,
        },
{
    let ghost s = address_views(tokens@);
    let mut i: usize = 0;
    while i < tokens.len()
        invariant
            i <= tokens.len(),
            s == address_views(tokens@),
            forall|j: int| 0 <= j < i ==> s[j] != token@,
        decreases tokens.len() - i,
    {
        if tokens[i].same_as(token) {
            proof {
                lemma_first_position_unique(s, token@, i as int);
            }
            return Some(i);
        }
        i = i + 1;
    }
    proof {
        lemma_first_position_found(s, token@);
    }
    None
}

} // verus!
