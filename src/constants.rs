use vstd::prelude::*;

verus! {

/// Longest accepted title, in characters.
pub const MAX_TITLE_LENGTH: usize = 100;

/// Longest accepted description, in characters.
pub const MAX_DESCRIPTION_LENGTH: usize = 500;

/// Smallest accepted tip, in lamports (0.001 SOL).
pub const MIN_TIP_AMOUNT: u64 = 1_000_000;

/// Suggested number of early-supporter slots per content item.
pub const DEFAULT_EARLY_SUPPORTER_LIMIT: u8 = 10;

/// Suggested early-supporter share: 10%.
pub const DEFAULT_EARLY_SUPPORTER_RATE: u16 = 1000;

/// Suggested platform fee: 2%.
pub const DEFAULT_PLATFORM_FEE_RATE: u16 = 200;

/// Scale of every rate: a rate `r` stands for `r / RATE_DENOMINATOR`.
pub const RATE_DENOMINATOR: u64 = 10000;

} // verus!
