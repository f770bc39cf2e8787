//! A fixed-capacity allow-list of identity keys, gated by a sale period.
//!
//! Two records make up the registry: the sale control record ([`Data`]) with
//! the period tag and the count of occupied slots, and the registry block
//! ([`WhitelistData`]) with the slots themselves. Five operations change
//! them; each is verified against a mathematical model of the two records.
//!
//! The identity keys are the `Pubkey` of the chain's SDK. The library stores
//! and copies them and never looks inside one. The single thing it takes on
//! trust is that the SDK's default key holds 32 zero bytes (see [`key`]).

pub mod instructions;
pub mod key;
pub mod laws;
pub mod period;
pub mod state;

pub use crate::instructions::add_whitelists;
pub use crate::instructions::clear_whitelist;
pub use crate::instructions::initialize_contract;
pub use crate::instructions::set_pending;
pub use crate::instructions::toggle_period;
pub use crate::period::PeriodStatus;
pub use crate::state::Data;
pub use crate::state::WhitelistData;
pub use crate::state::MAX_LEN;
