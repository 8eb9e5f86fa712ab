//! Marker types naming the interfaces of this application and of its
//! external collaborators: the auction contract itself, the fungible
//! token ledger that holds balances and executes transfers, and the
//! indexer that replays the event stream into a materialized view.
//!
//! The collaborators are out of scope here and specified only at their
//! boundary; these types exist so that hosts and clients can name the
//! interfaces they bind to.

use vstd::prelude::*;

verus! {

/// Names the auction application's contract interface.
pub struct AuctionAbi;

/// Names the fungible token ledger's contract interface. The ledger's
/// single relevant operation is a transfer that either fully completes
/// or fails synchronously with no partial effect.
pub struct FungibleTokenAbi;

/// Names the indexer's contract interface.
pub struct IndexerAbi;

/// The indexer takes no static parameters; it is configured by an
/// initialization operation naming the stream to subscribe to.
pub struct IndexerParameters {}

/// Static parameters of the fungible token ledger: the token's name and
/// ticker symbol.
#[derive(Clone, Debug, PartialEq, Eq)]
pub struct Parameters {
    pub name: String,
    pub symbol: String,
}

impl Parameters {
    /// Bundles a token name and ticker symbol.
    pub fn new(name: String, symbol: String) -> (parameters: Parameters)
        ensures
            parameters.name == name,
            parameters.symbol == symbol,
    {
        Parameters { name, symbol }
    }
}

} // verus!
