use relief_chain::contract::ReliefChain;
use relief_chain::types::{Address, BeneficiaryStatus, Error, Request, Symbol};

const NOW: u64 = 1_000;

fn addr(name: &str) -> Address {
    Address::new(name.to_string())
}

fn sym(name: &str) -> Symbol {
    Symbol::new(name.to_string())
}

fn run(chain: &mut ReliefChain, request: Request) -> Result<u64, Error> {
    assert!(chain.admissible(&request));
    chain.apply(request)
}

fn admin_flow() -> ReliefChain {
    let mut chain = ReliefChain::new();
    run(&mut chain, Request::Initialize { admin: addr("GA") }).unwrap();
    run(&mut chain, Request::AddVerifier { admin: addr("GA"), verifier: addr("GV") }).unwrap();
    let d = run(
        &mut chain,
        Request::CreateDisaster {
            admin: addr("GA"),
            name: "Quake".to_string(),
            location_hash: [1; 32],
            disaster_type: sym("QUAKE"),
            start_time: 10,
        },
    )
    .unwrap();
    assert_eq!(d, 1);
    run(&mut chain, Request::ActivateDisaster { admin: addr("GA"), disaster_id: 1 }).unwrap();
    chain
}

#[test]
fn apply_returns_ids_and_zero() {
    let mut chain = admin_flow();
    let b = run(
        &mut chain,
        Request::RegisterBeneficiary {
            verifier: addr("GV"),
            disaster_id: 1,
            wallet: addr("GB"),
            credential_hash: [2; 32],
        },
    );
    assert_eq!(b, Ok(1));
    assert_eq!(run(&mut chain, Request::VerifyBeneficiary { verifier: addr("GV"), beneficiary_id: 1 }), Ok(0));
    assert_eq!(
        run(&mut chain, Request::RejectBeneficiary { verifier: addr("GV"), beneficiary_id: 1 }),
        Err(Error::InvalidStatus)
    );
    assert_eq!(chain.get_beneficiary(1).unwrap().status, BeneficiaryStatus::Verified);
}

#[test]
fn admin_is_first_initializer() {
    let mut chain = ReliefChain::new();
    assert_eq!(chain.get_admin(), Err(Error::NotInitialized));
    run(&mut chain, Request::Initialize { admin: addr("GFIRST") }).unwrap();
    assert_eq!(run(&mut chain, Request::Initialize { admin: addr("GSECOND") }), Err(Error::AlreadyInitialized));
    assert_eq!(chain.get_admin(), Ok(addr("GFIRST")));
}

#[test]
fn verifier_flag_is_last_successful_change() {
    let mut chain = admin_flow();
    assert!(chain.is_verifier(addr("GV")));
    run(&mut chain, Request::RemoveVerifier { admin: addr("GA"), verifier: addr("GV") }).unwrap();
    assert_eq!(
        run(&mut chain, Request::AddVerifier { admin: addr("GX"), verifier: addr("GV") }),
        Err(Error::Unauthorized)
    );
    assert!(!chain.is_verifier(addr("GV")));
    assert_eq!(
        run(
            &mut chain,
            Request::RegisterBeneficiary {
                verifier: addr("GV"),
                disaster_id: 1,
                wallet: addr("GB"),
                credential_hash: [0; 32],
            }
        ),
        Err(Error::Unauthorized)
    );
    run(&mut chain, Request::AddVerifier { admin: addr("GA"), verifier: addr("GV") }).unwrap();
    assert!(chain.is_verifier(addr("GV")));
}

#[test]
fn closed_disaster_stays_closed_until_reactivated() {
    let mut chain = admin_flow();
    run(&mut chain, Request::CloseDisaster { admin: addr("GA"), disaster_id: 1 }).unwrap();
    run(&mut chain, Request::AddVerifier { admin: addr("GA"), verifier: addr("GW") }).unwrap();
    let register = |wallet: &str| Request::RegisterBeneficiary {
        verifier: addr("GV"),
        disaster_id: 1,
        wallet: addr(wallet),
        credential_hash: [0; 32],
    };
    assert_eq!(run(&mut chain, register("GB")), Err(Error::DisasterNotActive));
    assert_eq!(
        run(&mut chain, Request::DepositSimulated { admin: addr("GA"), disaster_id: 1, amount: 5 }),
        Err(Error::DisasterNotActive)
    );
    run(&mut chain, Request::ActivateDisaster { admin: addr("GA"), disaster_id: 1 }).unwrap();
    assert_eq!(run(&mut chain, register("GB")), Ok(1));
}

#[test]
fn suspended_vendor_stays_suspended_until_approved() {
    let mut chain = admin_flow();
    run(&mut chain, Request::RegisterVendor { vendor: addr("GS"), metadata_hash: [0; 32], category: sym("FOOD") }).unwrap();
    run(&mut chain, Request::ApproveVendor { admin: addr("GA"), vendor: addr("GS") }).unwrap();
    run(&mut chain, Request::SuspendVendor { admin: addr("GA"), vendor: addr("GS") }).unwrap();
    let redeem = Request::RedeemVoucher {
        vendor: addr("GS"),
        beneficiary_wallet: addr("GB"),
        disaster_id: 1,
        category: sym("FOOD"),
        voucher_amount: 1,
        payout_amount: 1,
        now: NOW,
    };
    assert_eq!(run(&mut chain, redeem), Err(Error::VendorNotActive));
    run(&mut chain, Request::ApproveVendor { admin: addr("GA"), vendor: addr("GS") }).unwrap();
    let redeem_again = Request::RedeemVoucher {
        vendor: addr("GS"),
        beneficiary_wallet: addr("GB"),
        disaster_id: 1,
        category: sym("FOOD"),
        voucher_amount: 1,
        payout_amount: 1,
        now: NOW,
    };
    assert_eq!(run(&mut chain, redeem_again), Err(Error::BeneficiaryNotFound));
}

#[test]
fn voucher_and_vault_are_totals_of_their_requests() {
    let mut chain = admin_flow();
    run(&mut chain, Request::RegisterBeneficiary { verifier: addr("GV"), disaster_id: 1, wallet: addr("GB"), credential_hash: [0; 32] }).unwrap();
    run(&mut chain, Request::VerifyBeneficiary { verifier: addr("GV"), beneficiary_id: 1 }).unwrap();
    run(&mut chain, Request::RegisterVendor { vendor: addr("GS"), metadata_hash: [0; 32], category: sym("FOOD") }).unwrap();
    run(&mut chain, Request::ApproveVendor { admin: addr("GA"), vendor: addr("GS") }).unwrap();
    for amount in [100, 250] {
        run(&mut chain, Request::DepositSimulated { admin: addr("GA"), disaster_id: 1, amount }).unwrap();
    }
    for amount in [40, 60, 5] {
        run(
            &mut chain,
            Request::IssueVoucher { verifier: addr("GV"), beneficiary_id: 1, category: sym("FOOD"), amount, expiry: 2_000, now: NOW },
        )
        .unwrap();
    }
    for (voucher_amount, payout_amount) in [(30, 70), (15, 20)] {
        run(
            &mut chain,
            Request::RedeemVoucher {
                vendor: addr("GS"),
                beneficiary_wallet: addr("GB"),
                disaster_id: 1,
                category: sym("FOOD"),
                voucher_amount,
                payout_amount,
                now: NOW,
            },
        )
        .unwrap();
    }
    assert_eq!(chain.get_voucher_record(1, addr("GB"), sym("FOOD")).amount, 40 + 60 + 5 - 30 - 15);
    assert_eq!(chain.get_vault_balance(1), 100 + 250 - 70 - 20);
    let first = chain.get_redemption(1).unwrap();
    run(&mut chain, Request::DepositSimulated { admin: addr("GA"), disaster_id: 1, amount: 1 }).unwrap();
    assert_eq!(chain.get_redemption(1).unwrap(), first);
}

#[test]
fn registration_is_per_disaster_and_wallet() {
    let mut chain = admin_flow();
    run(&mut chain, Request::CreateDisaster { admin: addr("GA"), name: "Flood".to_string(), location_hash: [3; 32], disaster_type: sym("FLOOD"), start_time: 20 }).unwrap();
    run(&mut chain, Request::ActivateDisaster { admin: addr("GA"), disaster_id: 2 }).unwrap();
    let first = run(&mut chain, Request::RegisterBeneficiary { verifier: addr("GV"), disaster_id: 1, wallet: addr("GB"), credential_hash: [4; 32] }).unwrap();
    let second = run(&mut chain, Request::RegisterBeneficiary { verifier: addr("GV"), disaster_id: 2, wallet: addr("GB"), credential_hash: [5; 32] }).unwrap();
    assert_ne!(first, second);
    assert_eq!(chain.get_beneficiary_by_wallet(1, addr("GB")), chain.get_beneficiary(first));
    assert_eq!(chain.get_beneficiary_by_wallet(2, addr("GB")), chain.get_beneficiary(second));
}
