use relief_chain::contract::ReliefChain;
use relief_chain::types::{
    Address, BeneficiaryStatus, DisasterStatus, RedemptionStatus, Symbol, VendorStatus,
};

const NOW: u64 = 1_000;

fn addr(name: &str) -> Address {
    Address::new(name.to_string())
}

fn sym(name: &str) -> Symbol {
    Symbol::new(name.to_string())
}

fn hash32(value: u8) -> [u8; 32] {
    [value; 32]
}

fn setup() -> (ReliefChain, Address, Address, Address, Address) {
    let mut chain = ReliefChain::new();
    let admin = addr("GADMIN");
    let verifier = addr("GVERIFIER");
    let beneficiary = addr("GBENEFICIARY");
    let vendor = addr("GVENDOR");
    chain.initialize(admin.clone()).unwrap();
    chain.add_verifier(admin.clone(), verifier.clone()).unwrap();
    (chain, admin, verifier, beneficiary, vendor)
}

#[test]
fn full_mvp_flow_works() {
    let (mut chain, admin, verifier, beneficiary, vendor) = setup();

    let disaster_id = chain
        .create_disaster(
            admin.clone(),
            "Gempa Cianjur".to_string(),
            hash32(1),
            sym("QUAKE"),
            1_000,
        )
        .unwrap();

    chain.activate_disaster(admin.clone(), disaster_id).unwrap();

    let disaster = chain.get_disaster(disaster_id).unwrap();
    assert_eq!(disaster.status, DisasterStatus::Active);

    let beneficiary_id = chain
        .register_beneficiary(verifier.clone(), disaster_id, beneficiary.clone(), hash32(2))
        .unwrap();

    chain.verify_beneficiary(verifier.clone(), beneficiary_id).unwrap();

    let beneficiary_data = chain.get_beneficiary(beneficiary_id).unwrap();
    assert_eq!(beneficiary_data.status, BeneficiaryStatus::Verified);

    chain.register_vendor(vendor.clone(), hash32(3), sym("FOOD")).unwrap();

    chain.approve_vendor(admin.clone(), vendor.clone()).unwrap();

    let vendor_data = chain.get_vendor(vendor.clone()).unwrap();
    assert_eq!(vendor_data.status, VendorStatus::Active);

    chain.deposit_simulated(admin.clone(), disaster_id, 1_000).unwrap();

    let vault_before = chain.get_vault_balance(disaster_id);
    assert_eq!(vault_before, 1_000);

    chain
        .issue_voucher(verifier.clone(), beneficiary_id, sym("FOOD"), 300, 2_000, NOW)
        .unwrap();

    let voucher_before =
        chain.get_voucher_balance(disaster_id, beneficiary.clone(), sym("FOOD"), NOW);

    assert_eq!(voucher_before, 300);

    let redemption_id = chain
        .redeem_voucher(
            vendor.clone(),
            beneficiary.clone(),
            disaster_id,
            sym("FOOD"),
            100,
            100,
            NOW,
        )
        .unwrap();

    let redemption = chain.get_redemption(redemption_id).unwrap();
    assert_eq!(redemption.status, RedemptionStatus::Paid);
    assert_eq!(redemption.payout_amount, 100);

    let voucher_after =
        chain.get_voucher_balance(disaster_id, beneficiary.clone(), sym("FOOD"), NOW);

    assert_eq!(voucher_after, 200);

    let vault_after = chain.get_vault_balance(disaster_id);
    assert_eq!(vault_after, 900);
}

#[test]
fn duplicate_beneficiary_registration_should_fail() {
    let (mut chain, admin, verifier, beneficiary, _vendor) = setup();

    let disaster_id = chain
        .create_disaster(
            admin.clone(),
            "Banjir Jakarta".to_string(),
            hash32(4),
            sym("FLOOD"),
            1_000,
        )
        .unwrap();

    chain.activate_disaster(admin.clone(), disaster_id).unwrap();

    chain
        .register_beneficiary(verifier.clone(), disaster_id, beneficiary.clone(), hash32(5))
        .unwrap();

    let result =
        chain.register_beneficiary(verifier.clone(), disaster_id, beneficiary.clone(), hash32(6));

    assert!(result.is_err());
}

#[test]
fn cannot_issue_voucher_to_unverified_beneficiary() {
    let (mut chain, admin, verifier, beneficiary, _vendor) = setup();

    let disaster_id = chain
        .create_disaster(admin.clone(), "Erupsi".to_string(), hash32(7), sym("ERUPT"), 1_000)
        .unwrap();

    chain.activate_disaster(admin.clone(), disaster_id).unwrap();

    let beneficiary_id = chain
        .register_beneficiary(verifier.clone(), disaster_id, beneficiary.clone(), hash32(8))
        .unwrap();

    let result = chain.issue_voucher(verifier.clone(), beneficiary_id, sym("FOOD"), 100, 2_000, NOW);

    assert!(result.is_err());
}

#[test]
fn insufficient_voucher_should_fail() {
    let (mut chain, admin, verifier, beneficiary, vendor) = setup();

    let disaster_id = chain
        .create_disaster(admin.clone(), "Longsor".to_string(), hash32(9), sym("SLIDE"), 1_000)
        .unwrap();

    chain.activate_disaster(admin.clone(), disaster_id).unwrap();

    let beneficiary_id = chain
        .register_beneficiary(verifier.clone(), disaster_id, beneficiary.clone(), hash32(10))
        .unwrap();

    chain.verify_beneficiary(verifier.clone(), beneficiary_id).unwrap();

    chain.register_vendor(vendor.clone(), hash32(11), sym("FOOD")).unwrap();

    chain.approve_vendor(admin.clone(), vendor.clone()).unwrap();

    chain.deposit_simulated(admin.clone(), disaster_id, 1_000).unwrap();

    chain
        .issue_voucher(verifier.clone(), beneficiary_id, sym("FOOD"), 50, 2_000, NOW)
        .unwrap();

    let result = chain.redeem_voucher(
        vendor.clone(),
        beneficiary.clone(),
        disaster_id,
        sym("FOOD"),
        100,
        100,
        NOW,
    );

    assert!(result.is_err());
}

#[test]
fn insufficient_vault_balance_should_fail() {
    let (mut chain, admin, verifier, beneficiary, vendor) = setup();

    let disaster_id = chain
        .create_disaster(admin.clone(), "Tsunami".to_string(), hash32(12), sym("TSUNAMI"), 1_000)
        .unwrap();

    chain.activate_disaster(admin.clone(), disaster_id).unwrap();

    let beneficiary_id = chain
        .register_beneficiary(verifier.clone(), disaster_id, beneficiary.clone(), hash32(13))
        .unwrap();

    chain.verify_beneficiary(verifier.clone(), beneficiary_id).unwrap();

    chain.register_vendor(vendor.clone(), hash32(14), sym("FOOD")).unwrap();

    chain.approve_vendor(admin.clone(), vendor.clone()).unwrap();

    chain.deposit_simulated(admin.clone(), disaster_id, 50).unwrap();

    chain
        .issue_voucher(verifier.clone(), beneficiary_id, sym("FOOD"), 500, 2_000, NOW)
        .unwrap();

    let result = chain.redeem_voucher(
        vendor.clone(),
        beneficiary.clone(),
        disaster_id,
        sym("FOOD"),
        100,
        100,
        NOW,
    );

    assert!(result.is_err());
}
