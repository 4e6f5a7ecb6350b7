use assetlinc::AccountId;
use assetlinc::AssetRegistry;
use assetlinc::ErrorCode;
use assetlinc::RegisterAsset;
use assetlinc::register_asset_as_nft;
use assetlinc::royalty_fee;

fn ctx(user_balance: u64, fee_receiver_balance: u64) -> RegisterAsset {
    RegisterAsset {
        user: AccountId { id: 7 },
        user_balance,
        fee_receiver: AccountId { id: 9 },
        fee_receiver_balance,
    }
}

#[test]
fn royalty_is_three_percent_rounded_down() {
    assert_eq!(royalty_fee(1000), 30);
    assert_eq!(royalty_fee(1), 0);
    assert_eq!(royalty_fee(0), 0);
    assert_eq!(royalty_fee(33), 0);
    assert_eq!(royalty_fee(34), 1);
    assert_eq!(royalty_fee(u64::MAX), u64::MAX / 100 * 3 + (u64::MAX % 100) * 3 / 100);
}

#[test]
fn registration_charges_the_royalty_and_records_the_caller() {
    let mut c = ctx(100, 5);
    let mut registry = AssetRegistry::new();
    let r = register_asset_as_nft(&mut c, &mut registry, String::from("Painting"), 1000);
    assert_eq!(r, Ok(0));
    assert_eq!(c.user_balance, 70);
    assert_eq!(c.fee_receiver_balance, 35);
    assert_eq!(registry.len(), 1);
    let record = registry.get(0);
    assert_eq!(record.name, "Painting");
    assert_eq!(record.value, 1000);
    assert_eq!(record.owner, AccountId { id: 7 });
}

#[test]
fn zero_value_asset_is_registered_without_payment() {
    let mut c = ctx(0, 0);
    let mut registry = AssetRegistry::new();
    assert_eq!(
        register_asset_as_nft(&mut c, &mut registry, String::from("Keepsake"), 0),
        Ok(0)
    );
    assert_eq!(c.user_balance, 0);
    assert_eq!(c.fee_receiver_balance, 0);
    assert_eq!(registry.len(), 1);
    assert_eq!(registry.get(0).value, 0);
}

#[test]
fn oversized_name_is_refused_before_any_payment() {
    let mut c = ctx(100, 0);
    let before = c;
    let mut registry = AssetRegistry::new();
    let name = String::from("a name of twenty-one"); // 20 bytes fits ...
    assert_eq!(name.len(), 20);
    let long = String::from("a name of twenty-one!"); // ... 21 bytes does not
    assert_eq!(long.len(), 21);
    assert_eq!(
        register_asset_as_nft(&mut c, &mut registry, long, 1000),
        Err(ErrorCode::StorageAllocationFailed)
    );
    assert_eq!(c, before);
    assert_eq!(registry.len(), 0);
    assert_eq!(
        register_asset_as_nft(&mut c, &mut registry, name, 1000),
        Ok(0)
    );
}

#[test]
fn multibyte_names_are_measured_in_bytes() {
    let mut c = ctx(100, 0);
    let mut registry = AssetRegistry::new();
    let name = String::from("snowman \u{2603}\u{2603}\u{2603}\u{2603}"); // 8 + 4 * 3 = 20 bytes
    assert_eq!(
        register_asset_as_nft(&mut c, &mut registry, name, 0),
        Ok(0)
    );
    let long = String::from("snowmen \u{2603}\u{2603}\u{2603}\u{2603}\u{2603}"); // 23 bytes
    assert_eq!(
        register_asset_as_nft(&mut c, &mut registry, long, 0),
        Err(ErrorCode::StorageAllocationFailed)
    );
}

#[test]
fn unpaid_royalty_leaves_no_record() {
    let mut c = ctx(29, 0);
    let before = c;
    let mut registry = AssetRegistry::new();
    assert_eq!(
        register_asset_as_nft(&mut c, &mut registry, String::from("Painting"), 1000),
        Err(ErrorCode::TransferFailed)
    );
    assert_eq!(c, before);
    assert_eq!(registry.len(), 0);
}

#[test]
fn earlier_records_survive_later_registrations() {
    let mut c = ctx(1_000, 0);
    let mut registry = AssetRegistry::new();
    assert_eq!(
        register_asset_as_nft(&mut c, &mut registry, String::from("First"), 1000),
        Ok(0)
    );
    let first = registry.get(0).clone();
    assert_eq!(
        register_asset_as_nft(&mut c, &mut registry, String::from("Second"), 500),
        Ok(1)
    );
    assert_eq!(
        register_asset_as_nft(&mut c, &mut registry, String::from("a name far too long to fit"), 2),
        Err(ErrorCode::StorageAllocationFailed)
    );
    assert_eq!(registry.len(), 2);
    assert_eq!(*registry.get(0), first);
    assert_eq!(registry.get(0).name, "First");
    assert_eq!(registry.get(0).value, 1000);
    assert_eq!(registry.get(0).owner, AccountId { id: 7 });
    assert_eq!(registry.get(1).name, "Second");
}
