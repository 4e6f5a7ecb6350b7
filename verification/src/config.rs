//! Configuration constants: tier fees, time windows, and record sizing.

use vstd::prelude::*;

verus! {

/// Recurring fee for the Basic tier, in the smallest currency unit.
pub const BASIC_FEE: u64 = 10_000_000;

/// Recurring fee for the Premium tier, in the smallest currency unit.
pub const PREMIUM_FEE: u64 = 25_000_000;

/// Recurring fee for the Enterprise tier, in the smallest currency unit.
pub const ENTERPRISE_FEE: u64 = 100_000_000;

/// Royalty charged when registering an asset, as a percentage of its value.
pub const ROYALTY_PERCENTAGE: u8 = 3;

/// Thirty days in seconds.  A subscription is reported expired once this much
/// time has passed since the last payment.
pub const MONTHLY_PERIOD: i64 = 30 * 24 * 60 * 60;

/// Fourteen days in seconds.  Within this window after the last payment (or
/// for a user who has never paid) a tier change requires no payment.
pub const TRIAL_PERIOD: i64 = 14 * 24 * 60 * 60;

/// Bytes available for an asset's name.  An asset record is stored in a fixed
/// 64-byte body holding a 4-byte length prefix, the name bytes, the 8-byte
/// value, and a 32-byte owner identity, which leaves 20 bytes for the name.
pub const MAX_ASSET_NAME_BYTES: usize = 20;

} // verus!
