use relief_chain::contract::ReliefChain;
use relief_chain::types::{
    Address, BeneficiaryStatus, DisasterStatus, Error, Event, RedemptionStatus, Symbol,
    VendorStatus, VoucherBalance,
};

const NOW: u64 = 1_000;

fn addr(name: &str) -> Address {
    Address::new(name.to_string())
}

fn sym(name: &str) -> Symbol {
    Symbol::new(name.to_string())
}

struct World {
    chain: ReliefChain,
    admin: Address,
    verifier: Address,
    beneficiary: Address,
    vendor: Address,
    disaster_id: u64,
    beneficiary_id: u64,
}

/// An initialized ledger with one active disaster, one verified beneficiary,
/// one approved FOOD vendor and a funded vault.
fn funded_world(vault: i128, voucher: i128) -> World {
    let mut chain = ReliefChain::new();
    let admin = addr("GADMIN");
    let verifier = addr("GVERIFIER");
    let beneficiary = addr("GBENEFICIARY");
    let vendor = addr("GVENDOR");
    chain.initialize(admin.clone()).unwrap();
    chain.add_verifier(admin.clone(), verifier.clone()).unwrap();
    let disaster_id = chain
        .create_disaster(admin.clone(), "Flood".to_string(), [1; 32], sym("FLOOD"), 900)
        .unwrap();
    chain.activate_disaster(admin.clone(), disaster_id).unwrap();
    let beneficiary_id = chain
        .register_beneficiary(verifier.clone(), disaster_id, beneficiary.clone(), [2; 32])
        .unwrap();
    chain.verify_beneficiary(verifier.clone(), beneficiary_id).unwrap();
    chain.register_vendor(vendor.clone(), [3; 32], sym("FOOD")).unwrap();
    chain.approve_vendor(admin.clone(), vendor.clone()).unwrap();
    if vault > 0 {
        chain.deposit_simulated(admin.clone(), disaster_id, vault).unwrap();
    }
    if voucher > 0 {
        chain
            .issue_voucher(verifier.clone(), beneficiary_id, sym("FOOD"), voucher, 2_000, NOW)
            .unwrap();
    }
    World { chain, admin, verifier, beneficiary, vendor, disaster_id, beneficiary_id }
}

#[test]
fn initialize_only_once() {
    let mut chain = ReliefChain::new();
    assert_eq!(chain.get_admin(), Err(Error::NotInitialized));
    assert_eq!(chain.initialize(addr("GA")), Ok(()));
    assert_eq!(chain.initialize(addr("GB")), Err(Error::AlreadyInitialized));
    assert_eq!(chain.get_admin(), Ok(addr("GA")));
    assert_eq!(chain.events().len(), 1);
    assert_eq!(chain.events()[0], Event::Initialized { admin: addr("GA") });
}

#[test]
fn admin_actions_need_initialization_and_the_admin() {
    let mut chain = ReliefChain::new();
    assert_eq!(chain.add_verifier(addr("GA"), addr("GV")), Err(Error::NotInitialized));
    chain.initialize(addr("GA")).unwrap();
    assert_eq!(chain.add_verifier(addr("GX"), addr("GV")), Err(Error::Unauthorized));
    assert_eq!(
        chain.create_disaster(addr("GX"), "x".to_string(), [0; 32], sym("Q"), 1),
        Err(Error::Unauthorized)
    );
    assert_eq!(chain.deposit_simulated(addr("GX"), 1, 10), Err(Error::Unauthorized));
    assert_eq!(chain.approve_vendor(addr("GX"), addr("GV")), Err(Error::Unauthorized));
    assert!(!chain.is_verifier(addr("GV")));
    assert_eq!(chain.events().len(), 1);
}

#[test]
fn verifier_role_reads_back() {
    let mut chain = ReliefChain::new();
    chain.initialize(addr("GA")).unwrap();
    assert!(!chain.is_verifier(addr("GV")));
    chain.add_verifier(addr("GA"), addr("GV")).unwrap();
    assert!(chain.is_verifier(addr("GV")));
    chain.remove_verifier(addr("GA"), addr("GV")).unwrap();
    assert!(!chain.is_verifier(addr("GV")));
    assert_eq!(chain.events()[1], Event::VerifierAdded { verifier: addr("GV") });
    assert_eq!(chain.events()[2], Event::VerifierRemoved { verifier: addr("GV") });
}

#[test]
fn removed_verifier_cannot_register() {
    let mut w = funded_world(0, 0);
    w.chain.remove_verifier(w.admin.clone(), w.verifier.clone()).unwrap();
    let result = w.chain.register_beneficiary(w.verifier.clone(), w.disaster_id, addr("GNEW"), [0; 32]);
    assert_eq!(result, Err(Error::Unauthorized));
}

#[test]
fn disaster_lifecycle_and_fresh_ids() {
    let mut chain = ReliefChain::new();
    let admin = addr("GA");
    chain.initialize(admin.clone()).unwrap();
    let first = chain.create_disaster(admin.clone(), "A".to_string(), [9; 32], sym("QUAKE"), 5).unwrap();
    let second = chain.create_disaster(admin.clone(), "B".to_string(), [8; 32], sym("FIRE"), 6).unwrap();
    assert_eq!(first, 1);
    assert_eq!(second, 2);
    let d = chain.get_disaster(first).unwrap();
    assert_eq!(d.id, 1);
    assert_eq!(d.name, "A".to_string());
    assert_eq!(d.location_hash, [9; 32]);
    assert_eq!(d.disaster_type, sym("QUAKE"));
    assert_eq!(d.start_time, 5);
    assert_eq!(d.status, DisasterStatus::Draft);
    chain.activate_disaster(admin.clone(), first).unwrap();
    assert_eq!(chain.get_disaster(first).unwrap().status, DisasterStatus::Active);
    chain.close_disaster(admin.clone(), first).unwrap();
    assert_eq!(chain.get_disaster(first).unwrap().status, DisasterStatus::Closed);
    assert_eq!(chain.get_disaster(first).unwrap().name, "A".to_string());
    assert_eq!(chain.activate_disaster(admin.clone(), 7), Err(Error::DisasterNotFound));
    assert_eq!(chain.get_disaster(7), Err(Error::DisasterNotFound));
    assert_eq!(chain.id_counters(), (2, 0, 0));
}

#[test]
fn registration_needs_an_active_disaster() {
    let mut chain = ReliefChain::new();
    let admin = addr("GA");
    let verifier = addr("GV");
    chain.initialize(admin.clone()).unwrap();
    chain.add_verifier(admin.clone(), verifier.clone()).unwrap();
    assert_eq!(
        chain.register_beneficiary(verifier.clone(), 1, addr("GB"), [0; 32]),
        Err(Error::DisasterNotFound)
    );
    let d = chain.create_disaster(admin.clone(), "D".to_string(), [0; 32], sym("Q"), 1).unwrap();
    assert_eq!(
        chain.register_beneficiary(verifier.clone(), d, addr("GB"), [0; 32]),
        Err(Error::DisasterNotActive)
    );
    chain.activate_disaster(admin.clone(), d).unwrap();
    assert_eq!(chain.register_beneficiary(verifier.clone(), d, addr("GB"), [0; 32]), Ok(1));
    chain.close_disaster(admin.clone(), d).unwrap();
    assert_eq!(
        chain.register_beneficiary(verifier.clone(), d, addr("GC"), [0; 32]),
        Err(Error::DisasterNotActive)
    );
}

#[test]
fn wallet_registered_once_per_disaster() {
    let mut w = funded_world(0, 0);
    let again = w.chain.register_beneficiary(w.verifier.clone(), w.disaster_id, w.beneficiary.clone(), [7; 32]);
    assert_eq!(again, Err(Error::BeneficiaryAlreadyRegistered));
    let other_disaster = w
        .chain
        .create_disaster(w.admin.clone(), "E".to_string(), [0; 32], sym("Q"), 1)
        .unwrap();
    w.chain.activate_disaster(w.admin.clone(), other_disaster).unwrap();
    let second = w
        .chain
        .register_beneficiary(w.verifier.clone(), other_disaster, w.beneficiary.clone(), [7; 32])
        .unwrap();
    assert_eq!(second, 2);
    let found = w.chain.get_beneficiary_by_wallet(w.disaster_id, w.beneficiary.clone()).unwrap();
    assert_eq!(found.id, w.beneficiary_id);
    assert_eq!(found.credential_hash, [2; 32]);
    assert_eq!(
        w.chain.get_beneficiary_by_wallet(w.disaster_id, addr("GNOBODY")),
        Err(Error::BeneficiaryNotFound)
    );
}

#[test]
fn beneficiary_reviewed_once() {
    let mut w = funded_world(0, 0);
    assert_eq!(w.chain.verify_beneficiary(w.verifier.clone(), w.beneficiary_id), Err(Error::InvalidStatus));
    assert_eq!(w.chain.reject_beneficiary(w.verifier.clone(), w.beneficiary_id), Err(Error::InvalidStatus));
    let id = w
        .chain
        .register_beneficiary(w.verifier.clone(), w.disaster_id, addr("GOTHER"), [4; 32])
        .unwrap();
    assert_eq!(w.chain.get_beneficiary(id).unwrap().status, BeneficiaryStatus::Pending);
    w.chain.reject_beneficiary(w.verifier.clone(), id).unwrap();
    assert_eq!(w.chain.get_beneficiary(id).unwrap().status, BeneficiaryStatus::Rejected);
    assert_eq!(w.chain.verify_beneficiary(w.verifier.clone(), id), Err(Error::InvalidStatus));
    assert_eq!(w.chain.verify_beneficiary(w.verifier.clone(), 99), Err(Error::BeneficiaryNotFound));
    assert_eq!(w.chain.get_beneficiary(99), Err(Error::BeneficiaryNotFound));
}

#[test]
fn vendor_registry_rules() {
    let mut chain = ReliefChain::new();
    let admin = addr("GA");
    chain.initialize(admin.clone()).unwrap();
    assert_eq!(chain.approve_vendor(admin.clone(), addr("GV")), Err(Error::VendorNotFound));
    chain.register_vendor(addr("GV"), [5; 32], sym("MED")).unwrap();
    assert_eq!(chain.register_vendor(addr("GV"), [6; 32], sym("FOOD")), Err(Error::InvalidStatus));
    let v = chain.get_vendor(addr("GV")).unwrap();
    assert_eq!(v.status, VendorStatus::Pending);
    assert_eq!(v.category, sym("MED"));
    assert_eq!(v.metadata_hash, [5; 32]);
    chain.approve_vendor(admin.clone(), addr("GV")).unwrap();
    assert_eq!(chain.get_vendor(addr("GV")).unwrap().status, VendorStatus::Active);
    chain.suspend_vendor(admin.clone(), addr("GV")).unwrap();
    assert_eq!(chain.get_vendor(addr("GV")).unwrap().status, VendorStatus::Suspended);
    assert_eq!(chain.get_vendor(addr("GW")), Err(Error::VendorNotFound));
}

#[test]
fn voucher_issue_rules() {
    let mut w = funded_world(0, 0);
    let v = w.verifier.clone();
    let b = w.beneficiary_id;
    assert_eq!(w.chain.issue_voucher(addr("GX"), b, sym("FOOD"), 10, 2_000, NOW), Err(Error::Unauthorized));
    assert_eq!(w.chain.issue_voucher(v.clone(), b, sym("FOOD"), 0, 2_000, NOW), Err(Error::InvalidAmount));
    assert_eq!(w.chain.issue_voucher(v.clone(), b, sym("FOOD"), 10, NOW, NOW), Err(Error::ExpiredVoucher));
    assert_eq!(w.chain.issue_voucher(v.clone(), 42, sym("FOOD"), 10, 2_000, NOW), Err(Error::BeneficiaryNotFound));
    w.chain.close_disaster(w.admin.clone(), w.disaster_id).unwrap();
    assert_eq!(w.chain.issue_voucher(v.clone(), b, sym("FOOD"), 10, 2_000, NOW), Err(Error::DisasterNotActive));
}

#[test]
fn voucher_top_up_adds_amount_and_keeps_latest_expiry() {
    let mut w = funded_world(0, 300);
    let v = w.verifier.clone();
    assert_eq!(
        w.chain.get_voucher_record(w.disaster_id, w.beneficiary.clone(), sym("FOOD")),
        VoucherBalance { amount: 300, expiry: 2_000 }
    );
    w.chain.issue_voucher(v.clone(), w.beneficiary_id, sym("FOOD"), 50, 1_500, NOW).unwrap();
    assert_eq!(
        w.chain.get_voucher_record(w.disaster_id, w.beneficiary.clone(), sym("FOOD")),
        VoucherBalance { amount: 350, expiry: 2_000 }
    );
    w.chain.issue_voucher(v.clone(), w.beneficiary_id, sym("FOOD"), 5, 3_000, NOW).unwrap();
    assert_eq!(
        w.chain.get_voucher_record(w.disaster_id, w.beneficiary.clone(), sym("FOOD")),
        VoucherBalance { amount: 355, expiry: 3_000 }
    );
    assert_eq!(
        w.chain.get_voucher_record(w.disaster_id, w.beneficiary.clone(), sym("MED")),
        VoucherBalance { amount: 0, expiry: 0 }
    );
}

#[test]
fn expired_voucher_is_worth_nothing() {
    let mut w = funded_world(1_000, 300);
    assert_eq!(w.chain.get_voucher_balance(w.disaster_id, w.beneficiary.clone(), sym("FOOD"), 1_999), 300);
    assert_eq!(w.chain.get_voucher_balance(w.disaster_id, w.beneficiary.clone(), sym("FOOD"), 2_000), 0);
    let result = w.chain.redeem_voucher(
        w.vendor.clone(),
        w.beneficiary.clone(),
        w.disaster_id,
        sym("FOOD"),
        10,
        10,
        2_000,
    );
    assert_eq!(result, Err(Error::ExpiredVoucher));
}

#[test]
fn deposit_rules_and_accounting() {
    let mut w = funded_world(0, 0);
    assert_eq!(w.chain.get_vault_balance(w.disaster_id), 0);
    assert_eq!(w.chain.deposit_simulated(w.admin.clone(), w.disaster_id, 0), Err(Error::InvalidAmount));
    assert_eq!(w.chain.deposit_simulated(w.admin.clone(), w.disaster_id, -5), Err(Error::InvalidAmount));
    assert_eq!(w.chain.deposit_simulated(w.admin.clone(), 77, 5), Err(Error::DisasterNotFound));
    w.chain.deposit_simulated(w.admin.clone(), w.disaster_id, 250).unwrap();
    w.chain.deposit_simulated(w.admin.clone(), w.disaster_id, 50).unwrap();
    assert_eq!(w.chain.get_vault_balance(w.disaster_id), 300);
}

#[test]
fn redemption_accounting_and_record() {
    let mut w = funded_world(1_000, 300);
    let id = w
        .chain
        .redeem_voucher(w.vendor.clone(), w.beneficiary.clone(), w.disaster_id, sym("FOOD"), 120, 80, NOW)
        .unwrap();
    assert_eq!(id, 1);
    assert_eq!(w.chain.get_voucher_balance(w.disaster_id, w.beneficiary.clone(), sym("FOOD"), NOW), 180);
    assert_eq!(w.chain.get_vault_balance(w.disaster_id), 920);
    let r = w.chain.get_redemption(id).unwrap();
    assert_eq!(r.id, 1);
    assert_eq!(r.disaster_id, w.disaster_id);
    assert_eq!(r.vendor, w.vendor);
    assert_eq!(r.beneficiary, w.beneficiary);
    assert_eq!(r.category, sym("FOOD"));
    assert_eq!(r.voucher_amount, 120);
    assert_eq!(r.payout_amount, 80);
    assert_eq!(r.status, RedemptionStatus::Paid);
    assert_eq!(r.created_at, NOW);
    assert_eq!(w.chain.get_redemption(2), Err(Error::RedemptionNotFound));
    let n = w.chain.events().len();
    assert_eq!(
        w.chain.events()[n - 3],
        Event::VoucherSpent {
            disaster_id: w.disaster_id,
            beneficiary: w.beneficiary.clone(),
            vendor: w.vendor.clone(),
            category: sym("FOOD"),
            amount: 120,
        }
    );
    assert_eq!(
        w.chain.events()[n - 2],
        Event::VaultReleased { disaster_id: w.disaster_id, vendor: w.vendor.clone(), amount: 80 }
    );
    assert_eq!(
        w.chain.events()[n - 1],
        Event::RedemptionPaid {
            disaster_id: w.disaster_id,
            redemption_id: 1,
            vendor: w.vendor.clone(),
            beneficiary: w.beneficiary.clone(),
            payout_amount: 80,
        }
    );
}

#[test]
fn redemption_refusals() {
    let mut w = funded_world(100, 300);
    let d = w.disaster_id;
    let b = w.beneficiary.clone();
    let v = w.vendor.clone();
    assert_eq!(w.chain.redeem_voucher(v.clone(), b.clone(), d, sym("FOOD"), 0, 10, NOW), Err(Error::InvalidAmount));
    assert_eq!(w.chain.redeem_voucher(v.clone(), b.clone(), d, sym("FOOD"), 10, -1, NOW), Err(Error::InvalidAmount));
    assert_eq!(w.chain.redeem_voucher(v.clone(), b.clone(), 55, sym("FOOD"), 10, 10, NOW), Err(Error::DisasterNotFound));
    assert_eq!(w.chain.redeem_voucher(addr("GNOV"), b.clone(), d, sym("FOOD"), 10, 10, NOW), Err(Error::VendorNotFound));
    assert_eq!(w.chain.redeem_voucher(v.clone(), b.clone(), d, sym("MED"), 10, 10, NOW), Err(Error::InvalidStatus));
    assert_eq!(w.chain.redeem_voucher(v.clone(), addr("GNOB"), d, sym("FOOD"), 10, 10, NOW), Err(Error::BeneficiaryNotFound));
    assert_eq!(w.chain.redeem_voucher(v.clone(), b.clone(), d, sym("FOOD"), 301, 10, NOW), Err(Error::InsufficientVoucher));
    assert_eq!(w.chain.redeem_voucher(v.clone(), b.clone(), d, sym("FOOD"), 10, 101, NOW), Err(Error::InsufficientVaultBalance));
    w.chain.register_vendor(addr("GPENDING"), [0; 32], sym("FOOD")).unwrap();
    assert_eq!(w.chain.redeem_voucher(addr("GPENDING"), b.clone(), d, sym("FOOD"), 10, 10, NOW), Err(Error::VendorNotActive));
    let pending = w.chain.register_beneficiary(w.verifier.clone(), d, addr("GPB"), [0; 32]).unwrap();
    assert_eq!(w.chain.get_beneficiary(pending).unwrap().status, BeneficiaryStatus::Pending);
    assert_eq!(w.chain.redeem_voucher(v.clone(), addr("GPB"), d, sym("FOOD"), 10, 10, NOW), Err(Error::BeneficiaryNotVerified));
    w.chain.suspend_vendor(w.admin.clone(), v.clone()).unwrap();
    assert_eq!(w.chain.redeem_voucher(v.clone(), b.clone(), d, sym("FOOD"), 10, 10, NOW), Err(Error::VendorNotActive));
    assert_eq!(w.chain.get_voucher_balance(d, b.clone(), sym("FOOD"), NOW), 300);
    assert_eq!(w.chain.get_vault_balance(d), 100);
}

#[test]
fn refused_request_changes_nothing() {
    let mut w = funded_world(100, 300);
    let events_before = w.chain.events().len();
    let counters_before = w.chain.id_counters();
    let result = w.chain.redeem_voucher(
        w.vendor.clone(),
        w.beneficiary.clone(),
        w.disaster_id,
        sym("FOOD"),
        10,
        500,
        NOW,
    );
    assert_eq!(result, Err(Error::InsufficientVaultBalance));
    assert_eq!(w.chain.events().len(), events_before);
    assert_eq!(w.chain.id_counters(), counters_before);
    assert_eq!(w.chain.get_voucher_balance(w.disaster_id, w.beneficiary.clone(), sym("FOOD"), NOW), 300);
    assert_eq!(w.chain.get_vault_balance(w.disaster_id), 100);
}

#[test]
fn vouchers_stay_with_their_beneficiary() {
    let mut w = funded_world(1_000, 300);
    let other = addr("GOTHER");
    let other_id = w
        .chain
        .register_beneficiary(w.verifier.clone(), w.disaster_id, other.clone(), [6; 32])
        .unwrap();
    w.chain.verify_beneficiary(w.verifier.clone(), other_id).unwrap();
    w.chain.issue_voucher(w.verifier.clone(), other_id, sym("FOOD"), 40, 2_000, NOW).unwrap();
    w.chain
        .redeem_voucher(w.vendor.clone(), w.beneficiary.clone(), w.disaster_id, sym("FOOD"), 100, 100, NOW)
        .unwrap();
    assert_eq!(w.chain.get_voucher_balance(w.disaster_id, other.clone(), sym("FOOD"), NOW), 40);
    assert_eq!(w.chain.get_voucher_balance(w.disaster_id, w.beneficiary.clone(), sym("FOOD"), NOW), 200);
}

#[test]
fn address_and_symbol_text_round_trips() {
    let a = addr("GABC");
    assert_eq!(a.as_string(), &"GABC".to_string());
    assert!(a.same_as(&addr("GABC")));
    assert!(!a.same_as(&addr("GABD")));
    let s = sym("WATER");
    assert_eq!(s.as_string(), &"WATER".to_string());
    assert!(s.same_as(&sym("WATER")));
    assert!(!s.same_as(&sym("FOOD")));
}

#[test]
fn balances_drain_to_zero_and_no_further() {
    let mut w = funded_world(100, 100);
    let d = w.disaster_id;
    let b = w.beneficiary.clone();
    let v = w.vendor.clone();
    assert_eq!(w.chain.redeem_voucher(v.clone(), b.clone(), d, sym("FOOD"), 100, 100, NOW), Ok(1));
    assert_eq!(w.chain.get_voucher_balance(d, b.clone(), sym("FOOD"), NOW), 0);
    assert_eq!(w.chain.get_vault_balance(d), 0);
    assert_eq!(
        w.chain.redeem_voucher(v.clone(), b.clone(), d, sym("FOOD"), 1, 1, NOW),
        Err(Error::InsufficientVoucher)
    );
    w.chain.issue_voucher(w.verifier.clone(), w.beneficiary_id, sym("FOOD"), 10, 2_000, NOW).unwrap();
    assert_eq!(
        w.chain.redeem_voucher(v.clone(), b.clone(), d, sym("FOOD"), 1, 1, NOW),
        Err(Error::InsufficientVaultBalance)
    );
    assert_eq!(w.chain.get_vault_balance(d), 0);
    assert_eq!(w.chain.id_counters(), (1, 1, 1));
}
