//! A verified single-asset bonding-curve pricing library.
//!
//! The crate has two layers. The lower layer is a checked fixed-point
//! algebra: a signed scaled-integer decimal type ([`fixed::Fixed`]) and a
//! possibly-failed wrapper ([`fixed_wrapper::FixedWrapper`]) whose
//! arithmetic propagates failure instead of wrapping or panicking. The
//! upper layer is the pricing engine ([`bonding_curve_pool::Module`]): a
//! linear price-versus-issuance curve, its definite integral for bulk
//! trades, the closed-form inverse for bulk buys by output, a
//! percentage-derived sell curve, and a reserve-rebalancing `buy`
//! transition that distributes surplus across the fixed beneficiary
//! shares of a policy.
//!
//! Ledger state (asset owners, balances, issuance) lives in an explicit
//! in-memory repository ([`assets::Module`]) so the engine is
//! storage-agnostic; an external swap router receives its buy-back work
//! order as a returned value rather than being called from here.

pub mod assets;
pub mod bonding_curve_pool;
pub mod fixed;
pub mod fixed_wrapper;
pub mod primitives;
pub mod traits;
