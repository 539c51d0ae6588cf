//! Verified contract logic of the Pi Coin ecosystem.
//!
//! The heart of the crate is [`dex`], a two-asset constant-product liquidity
//! pool whose arithmetic, share accounting and atomic commit discipline are
//! proved by Verus.
//!
//! Around it stand the contracts that build on the pool or live beside it:
//! [`yield_farming`] and [`pi_staking`] pay rewards on stakes,
//! [`multi_sig_governance`] gathers approvals, [`pi_coin`] and
//! [`mega_negation_stablecoin`] mint and move coins, and
//! [`hyper_autonomous_ai`] decides on reports. The agents
//! [`hyper_ai_monitor`], [`global_adoption_booster`],
//! [`pi_coin_final_deployer`], [`pi_coin_self_replicator`],
//! [`pi_coin_tokenomics_ai`] and [`pi_coin_ultimate_enforcer`] keep books
//! that they move forward round by round.
//!
//! Nothing here talks to a host. A contract is a value; the time, the
//! randomness of the host, prices and proofs are handed in; what a contract
//! wants done outside it returns. The agents draw their own random numbers,
//! through [`chance`], and every function that draws has a twin that takes
//! the draws as arguments.

pub mod address;
pub mod chain;
pub mod chance;
pub mod dex;
pub mod global_adoption_booster;
pub mod hyper_ai_monitor;
pub mod hyper_autonomous_ai;
pub mod mega_negation_stablecoin;
pub mod multi_sig_governance;
pub mod pi_coin;
pub mod pi_coin_final_deployer;
pub mod pi_coin_self_replicator;
pub mod pi_coin_tokenomics_ai;
pub mod pi_coin_ultimate_enforcer;
pub mod pi_staking;
pub mod registry;
pub mod yield_farming;
