//! Precompiled contracts: the reserved addresses of a chain, the native
//! handlers bound to them, and the bridge that lets a call reach the ledger's
//! fungible assets.
//!
//! `registry` holds the reserved addresses and routes a call to its handler.
//! `capability` meters the handlers that compute on the input alone.
//! `bridge` answers calls to the asset bridge, whose layout is in `abi` and
//! whose types are in `native`. `ledger` is a ledger held in memory, built
//! on `table`, whose books balance by what `holdings` adds up. `context` is
//! the call and its result; `address`, `word` and `bytes` are the values
//! that calls are made of.

pub mod abi;
pub mod address;
pub mod bridge;
pub mod bytes;
pub mod capability;
pub mod context;
pub mod holdings;
pub mod ledger;
pub mod native;
pub mod registry;
pub mod table;
pub mod word;
