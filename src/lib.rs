//! An off-chain price reconciliation pipeline and the deterministic calls it feeds.
//!
//! Once per block a worker fetches a price, fans a signed `submit_data` call out over every
//! local signing identity, and leaves an advisory record in a node-local store under a key
//! derived from the block height. The ledger side applies the call by overwriting one price
//! cell.
pub mod key;
pub mod fetch;
pub mod store;
pub mod pallet;
pub mod worker;
pub mod weights;
pub mod erc20;
