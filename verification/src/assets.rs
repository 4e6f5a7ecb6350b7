//! Asset registration: royalty computation, name-size validation, and the
//! append-only registry of asset records.

use vstd::prelude::*;
use vstd::utf8::encode_utf8;

use crate::config::MAX_ASSET_NAME_BYTES;
use crate::config::ROYALTY_PERCENTAGE;
use crate::errors::ErrorCode;
use crate::ledger::AccountId;
use crate::ledger::transfer;
use crate::ledger::transfer_ok;

verus! {

/// A registered asset: its name, its declared value in the smallest currency
/// unit, and the identity of the user who registered it.  A record is
/// created once and never altered.
#[derive(Clone, Debug, PartialEq, Eq)]
pub struct NftData {
    pub name: String,
    pub value: u64,
    pub owner: AccountId,
}

/// Everything an asset-registration call reads and writes besides the
/// registry itself: the caller's identity and balance, and the
/// fee-receiver's identity and balance.
#[derive(Clone, Copy, Debug, PartialEq, Eq, Structural)]
pub struct RegisterAsset {
    pub user: AccountId,
    pub user_balance: u64,
    pub fee_receiver: AccountId,
    pub fee_receiver_balance: u64,
}

/// The store of asset records.  Records can be created and read, never
/// updated or deleted: the only function that touches a registry is
/// [`register_asset_as_nft`], and it appends.
pub struct AssetRegistry {
    records: Vec<NftData>,
}

impl View for AssetRegistry {
    type V = Seq<NftData>;

    closed spec fn view(&self) -> Seq<NftData> {
        self.records@
    }
}

/// The royalty owed for registering an asset of the given value: three
/// percent, rounded down.
pub open spec fn spec_royalty_fee(value: u64) -> int {
    value * ROYALTY_PERCENTAGE / 100
}

/// Whether an asset name fits the fixed record body: its UTF-8 encoding may
/// hold at most [`MAX_ASSET_NAME_BYTES`] bytes.
pub open spec fn name_fits(name: Seq<char>) -> bool {
    encode_utf8(name).len() <= MAX_ASSET_NAME_BYTES
}

/// The royalty owed for registering an asset of the given value; the runtime
/// counterpart of [`spec_royalty_fee`].  A value of zero owes nothing.
pub fn royalty_fee(value: u64) -> (r: u64)
    ensures
        r == spec_royalty_fee(value),
{
    proof {
        assert(value * ROYALTY_PERCENTAGE / 100 <= value) by (nonlinear_arith);
    }
    (((value as u128) * (ROYALTY_PERCENTAGE as u128)) / 100) as u64
}

impl AssetRegistry {
    /// An empty registry.
    pub fn new() -> (r: AssetRegistry)
        ensures
            r@ == Seq::<NftData>::empty(),
    {
        AssetRegistry { records: Vec::new() }
    }

    /// How many assets have been registered.
    pub fn len(&self) -> (n: usize)
        ensures
            n == self@.len(),
    {
        self.records.len()
    }

    /// The record registered under the given index, in registration order.
    pub fn get(&self, index: usize) -> (record: &NftData)
        requires
            index < self@.len(),
        ensures
            *record == self@[index as int],
    {
        &self.records[index]
    }
}

/// Registers a named asset under the caller's own identity, collecting the
/// royalty on its declared value.
///
/// A name that overflows the record's storage budget aborts the call with
/// `StorageAllocationFailed` before any payment.  Otherwise exactly the
/// royalty moves from the caller to the fee-receiver, and a record with the
/// given name and value, owned by the caller, is appended under the returned
/// index.  A refused payment aborts with `TransferFailed`.  No call, whether
/// it succeeds or fails, touches a record already in the registry.
pub fn register_asset_as_nft(
    ctx: &mut RegisterAsset,
    registry: &mut AssetRegistry,
    asset_name: String,
    asset_value: u64,
) -> (r: Result<usize, ErrorCode>)
    ensures
        r is Ok <==> name_fits(asset_name@) && transfer_ok(
            old(ctx).user_balance as int,
            old(ctx).fee_receiver_balance as int,
            spec_royalty_fee(asset_value),
        ),
        !name_fits(asset_name@) ==> r == Err::<usize, ErrorCode>(
            ErrorCode::StorageAllocationFailed,
        ),
        name_fits(asset_name@) && !transfer_ok(
            old(ctx).user_balance as int,
            old(ctx).fee_receiver_balance as int,
            spec_royalty_fee(asset_value),
        ) ==> r == Err::<usize, ErrorCode>(ErrorCode::TransferFailed),
        r is Ok ==> {
            let record = final(registry)@[old(registry)@.len() as int];
            &&& r->Ok_0 == old(registry)@.len()
            &&& final(registry)@.len() == old(registry)@.len() + 1
            &&& record.name@ == asset_name@
            &&& record.value == asset_value
            &&& record.owner == old(ctx).user
            &&& final(ctx).user_balance == old(ctx).user_balance - spec_royalty_fee(asset_value)
            &&& final(ctx).fee_receiver_balance == old(ctx).fee_receiver_balance
                + spec_royalty_fee(asset_value)
        },
        r is Err ==> *final(ctx) == *old(ctx) && final(registry)@ == old(registry)@,
        final(ctx).user == old(ctx).user,
        final(ctx).fee_receiver == old(ctx).fee_receiver,
        forall|i: int|
            0 <= i < old(registry)@.len() ==> final(registry)@[i] == old(registry)@[i],
{
    let name_bytes: usize = asset_name.as_str().as_bytes().len();
    if name_bytes > MAX_ASSET_NAME_BYTES {
        return Err(ErrorCode::StorageAllocationFailed);
    }
    let fee = royalty_fee(asset_value);
    match transfer(ctx.user_balance, ctx.fee_receiver_balance, fee) {
        Ok((new_user_balance, new_receiver_balance)) => {
            ctx.user_balance = new_user_balance;
            ctx.fee_receiver_balance = new_receiver_balance;
            let index = registry.records.len();
            registry.records.push(
                NftData { name: asset_name, value: asset_value, owner: ctx.user },
            );
            Ok(index)
        },
        Err(e) => Err(e),
    }
}

} // verus!
