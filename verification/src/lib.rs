pub mod blinks;
pub mod convert;
pub mod coordinator;
pub mod dto;
pub mod errors;
pub mod nft;
pub mod order;
pub mod parse;
pub mod product;
pub mod resolver;
pub mod split;
pub mod strutil;
pub mod txbuild;

use vstd::prelude::*;

verus! {

/// Identifier of the main blockchain network a blink action settles on.
pub const MAINNET_BLOCKCHAIN_ID: &'static str = "solana:5eykt4UsFv8P8NJdTREpY1vzqKqZKvdp";

/// Identifier of the development blockchain network.
pub const DEVNET_BLOCKCHAIN_ID: &'static str = "solana:EtWTRABZaYq6iMfeYKouRu166VU2xqa1";

/// Maps a network name to the blockchain identifier that action
/// responses carry; every network other than mainnet resolves to the
/// development identifier.
pub fn get_blockchain_id(network: &str) -> (r: &'static str)
    ensures
        network@ == "mainnet"@ ==> r@ == MAINNET_BLOCKCHAIN_ID@,
        network@ != "mainnet"@ ==> r@ == DEVNET_BLOCKCHAIN_ID@,
{
    if crate::strutil::str_eq(network, "mainnet") {
        MAINNET_BLOCKCHAIN_ID
    } else {
        DEVNET_BLOCKCHAIN_ID
    }
}

} // verus!
