//! A custodial staking ledger: users lock fungible tokens for a chosen
//! duration, the system escrows them in a shared custody pool, accrues a
//! reward from a tiered APY schedule keyed to the committed lock duration,
//! and releases principal plus reward atomically when the lock matures.
//!
//! All state is modelled explicitly: token balances, the per-user position
//! store, the per-user position counters and the global statistics are plain
//! records, and every operation on them is verified.

pub mod constants;
pub mod custody;
pub mod error;
pub mod events;
pub mod laws;
pub mod metadata;
pub mod staking;
pub mod state;
pub mod token_ops;

pub use constants::get_apy_for_duration;
pub use error::ErrorCode;
pub use events::StakeEvent;
pub use events::UnstakeEvent;
pub use metadata::validate_metadata;
pub use staking::StakingPlatform;
pub use staking::initialize;
pub use token_ops::approve_delegate;
pub use token_ops::claim_tokens;
pub use token_ops::delegated_transfer;
pub use token_ops::revoke_delegate;
pub use token_ops::transfer;
pub use state::GlobalStats;
pub use state::StakeAccount;
pub use state::StakeCounter;
pub use state::TokenAccount;
pub use state::TokenConfig;
pub use state::UserClaim;
pub use state::VaultAuthority;
