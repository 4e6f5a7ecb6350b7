//! A minimal subscription and asset-registration service.
//!
//! Users hold one of three subscription tiers (Basic, Premium, Enterprise) and
//! pay a recurring fee to keep it, except inside a fourteen-day trial window
//! after their last payment, during which tier changes are free.  Separately,
//! a user may register a named asset under their own identity by paying a
//! royalty of three percent of the asset's declared value.  A read-only check
//! reports whether a subscription has expired, thirty days after the last
//! payment.
//!
//! The host execution environment supplies the clock, the ledger that moves
//! balances, and durable storage; this crate holds the decision and
//! state-transition logic over plain values, with its behaviour stated in
//! contracts.

pub mod assets;
pub mod config;
pub mod errors;
pub mod ledger;
pub mod subscription;

pub use assets::AssetRegistry;
pub use assets::NftData;
pub use assets::RegisterAsset;
pub use assets::register_asset_as_nft;
pub use assets::royalty_fee;
pub use errors::ErrorCode;
pub use ledger::AccountId;
pub use ledger::transfer;
pub use subscription::CheckSubscription;
pub use subscription::ManageSubscription;
pub use subscription::UserData;
pub use subscription::check_subscription;
pub use subscription::manage_subscription;
pub use subscription::tier_fee;
