//! Properties of the ledger as a whole, proved over the model.

use vstd::prelude::*;
use crate::history::{activates, approves, first_initialize, grants_verifier};
use crate::model::ReliefChainView;
use crate::types::{
    Address, BeneficiaryStatus, DisasterEvent, DisasterStatus, Error, Request,
    RedemptionStatus, Symbol, Vendor, VendorStatus,
};

verus! {

/// A fresh ledger is consistent.
pub proof fn law_initial_state_consistent()
    ensures
        ReliefChainView::initial().consistent(),
{
}

/// Every request that stays within the machine's integer ranges keeps the
/// ledger consistent.
pub proof fn law_step_keeps_consistency(s: ReliefChainView, request: Request)
    requires
        s.consistent(),
        s.admissible(request),
    ensures
        s.step(request).0.consistent(),
{
}

/// A ledger is initialized once: after a successful initialization the admin
/// is set, and any further initialization is refused with
/// `AlreadyInitialized` and changes nothing.
pub proof fn law_initialize_once(s: ReliefChainView, first: Address, second: Address)
    requires
        s.initialize(first).1 is Ok,
    ensures
        s.initialize(first).0.admin == Some(first),
        s.initialize(first).0.initialize(second) == (
            s.initialize(first).0,
            Err::<(), Error>(Error::AlreadyInitialized),
        ),
{
}

/// Only the admin manages verifiers, disasters, vendors and the vault: any
/// such request from another caller, or before initialization, is refused
/// and changes nothing.
pub proof fn law_admin_only(
    s: ReliefChainView,
    caller: Address,
    target: Address,
    disaster_id: u64,
    amount: i128,
    name: String,
    location_hash: [u8; 32],
    disaster_type: Symbol,
    start_time: u64,
)
    requires
        s.admin_refusal(caller@) is Some,
    ensures
        s.add_verifier(caller, target).0 == s && s.add_verifier(caller, target).1 is Err,
        s.remove_verifier(caller, target).0 == s && s.remove_verifier(caller, target).1 is Err,
        s.create_disaster(caller, name, location_hash, disaster_type, start_time).0 == s,
        s.create_disaster(caller, name, location_hash, disaster_type, start_time).1 is Err,
        s.activate_disaster(caller, disaster_id).0 == s && s.activate_disaster(caller, disaster_id).1 is Err,
        s.close_disaster(caller, disaster_id).0 == s && s.close_disaster(caller, disaster_id).1 is Err,
        s.approve_vendor(caller, target).0 == s && s.approve_vendor(caller, target).1 is Err,
        s.suspend_vendor(caller, target).0 == s && s.suspend_vendor(caller, target).1 is Err,
        s.deposit_simulated(caller, disaster_id, amount).0 == s,
        s.deposit_simulated(caller, disaster_id, amount).1 is Err,
{
}

/// The admin is exactly the address given at initialization: it passes the
/// admin check, and every other address is refused as `Unauthorized`.
pub proof fn law_admin_is_initializer(s: ReliefChainView, admin: Address, other: Address)
    requires
        s.initialize(admin).1 is Ok,
        other@ != admin@,
    ensures
        s.initialize(admin).0.admin_refusal(admin@) is None,
        s.initialize(admin).0.admin_refusal(other@) == Some(Error::Unauthorized),
{
}

/// Granting and revoking the verifier role is what `is_verifier` reads back.
pub proof fn law_verifier_role_read_back(s: ReliefChainView, admin: Address, verifier: Address)
    requires
        s.admin_refusal(admin@) is None,
    ensures
        s.add_verifier(admin, verifier).0.is_verifier(verifier@),
        !s.remove_verifier(admin, verifier).0.is_verifier(verifier@),
{
}

/// Only current verifiers register, review and fund beneficiaries: any such
/// request from another caller is refused as `Unauthorized` and changes
/// nothing.
pub proof fn law_verifier_only(
    s: ReliefChainView,
    caller: Address,
    disaster_id: u64,
    wallet: Address,
    credential_hash: [u8; 32],
    beneficiary_id: u64,
    category: Symbol,
    amount: i128,
    expiry: u64,
    now: u64,
)
    requires
        !s.is_verifier(caller@),
    ensures
        s.register_beneficiary(caller, disaster_id, wallet, credential_hash) == (
            s,
            Err::<u64, Error>(Error::Unauthorized),
        ),
        s.verify_beneficiary(caller, beneficiary_id) == (s, Err::<(), Error>(Error::Unauthorized)),
        s.reject_beneficiary(caller, beneficiary_id) == (s, Err::<(), Error>(Error::Unauthorized)),
        s.issue_voucher(caller, beneficiary_id, category, amount, expiry, now) == (
            s,
            Err::<(), Error>(Error::Unauthorized),
        ),
{
}

/// Only an active disaster takes beneficiary registrations, vouchers and
/// redemptions.
pub proof fn law_active_disaster_only(
    s: ReliefChainView,
    verifier: Address,
    vendor: Address,
    disaster_id: u64,
    wallet: Address,
    credential_hash: [u8; 32],
    beneficiary_id: u64,
    category: Symbol,
    voucher_amount: i128,
    payout_amount: i128,
    expiry: u64,
    now: u64,
)
    requires
        s.active_disaster_refusal(disaster_id) is Some,
    ensures
        s.register_beneficiary(verifier, disaster_id, wallet, credential_hash).1 is Err,
        s.redeem_voucher(vendor, wallet, disaster_id, category, voucher_amount, payout_amount, now).1 is Err,
        s.beneficiaries.contains_key(beneficiary_id) && s.beneficiaries[beneficiary_id].disaster_id
            == disaster_id ==> s.issue_voucher(
            verifier,
            beneficiary_id,
            category,
            voucher_amount,
            expiry,
            now,
        ).1 is Err,
{
}

/// Every new disaster and beneficiary gets a fresh id, larger than every id
/// handed out before.
pub proof fn law_fresh_ids(
    s: ReliefChainView,
    admin: Address,
    name: String,
    location_hash: [u8; 32],
    disaster_type: Symbol,
    start_time: u64,
    verifier: Address,
    disaster_id: u64,
    wallet: Address,
    credential_hash: [u8; 32],
    earlier: u64,
)
    requires
        s.consistent(),
        s.last_disaster_id < u64::MAX,
        s.last_beneficiary_id < u64::MAX,
    ensures
        s.create_disaster(admin, name, location_hash, disaster_type, start_time).1 matches Ok(id) ==> {
            &&& !s.disasters.contains_key(id)
            &&& (s.disasters.contains_key(earlier) ==> earlier < id)
        },
        s.register_beneficiary(verifier, disaster_id, wallet, credential_hash).1 matches Ok(id) ==> {
            &&& !s.beneficiaries.contains_key(id)
            &&& (s.beneficiaries.contains_key(earlier) ==> earlier < id)
        },
{
}

/// In a consistent ledger a wallet is registered at most once per disaster.
pub proof fn law_one_registration_per_wallet(s: ReliefChainView, first: u64, second: u64)
    requires
        s.consistent(),
        s.beneficiaries.contains_key(first),
        s.beneficiaries.contains_key(second),
        s.beneficiaries[first].disaster_id == s.beneficiaries[second].disaster_id,
        s.beneficiaries[first].wallet@ == s.beneficiaries[second].wallet@,
    ensures
        first == second,
{
}

/// Once a wallet is registered for a disaster, registering it again for that
/// disaster is refused, whoever asks.
pub proof fn law_second_registration_refused(
    s: ReliefChainView,
    verifier: Address,
    disaster_id: u64,
    wallet: Address,
    credential_hash: [u8; 32],
    other_verifier: Address,
    same_wallet: Address,
    other_hash: [u8; 32],
)
    requires
        s.register_beneficiary(verifier, disaster_id, wallet, credential_hash).1 is Ok,
        same_wallet@ == wallet@,
    ensures
        s.register_beneficiary(verifier, disaster_id, wallet, credential_hash).0.register_beneficiary(
            other_verifier,
            disaster_id,
            same_wallet,
            other_hash,
        ).1 is Err,
{
}

/// A beneficiary is reviewed once: after it is verified or rejected, any
/// further verification or rejection is refused and changes nothing.
pub proof fn law_review_once(s: ReliefChainView, verifier: Address, beneficiary_id: u64, reviewer: Address)
    requires
        s.verify_beneficiary(verifier, beneficiary_id).1 is Ok || s.reject_beneficiary(
            verifier,
            beneficiary_id,
        ).1 is Ok,
    ensures
        ({
            let t = if s.verify_beneficiary(verifier, beneficiary_id).1 is Ok {
                s.verify_beneficiary(verifier, beneficiary_id).0
            } else {
                s.reject_beneficiary(verifier, beneficiary_id).0
            };
            &&& t.verify_beneficiary(reviewer, beneficiary_id).0 == t
            &&& t.verify_beneficiary(reviewer, beneficiary_id).1 is Err
            &&& t.reject_beneficiary(reviewer, beneficiary_id).0 == t
            &&& t.reject_beneficiary(reviewer, beneficiary_id).1 is Err
        }),
{
}

/// Issuing a voucher adds exactly its amount to the beneficiary's voucher
/// for that category, and never moves its expiry earlier.
pub proof fn law_issue_accounting(
    s: ReliefChainView,
    verifier: Address,
    beneficiary_id: u64,
    category: Symbol,
    amount: i128,
    expiry: u64,
    now: u64,
)
    requires
        s.consistent(),
        s.issue_voucher(verifier, beneficiary_id, category, amount, expiry, now).1 is Ok,
        ({
            let ben = s.beneficiaries[beneficiary_id];
            s.voucher_record(ben.disaster_id, ben.wallet@, category@).amount + amount <= i128::MAX
        }),
    ensures
        ({
            let ben = s.beneficiaries[beneficiary_id];
            let t = s.issue_voucher(verifier, beneficiary_id, category, amount, expiry, now).0;
            let before = s.voucher_record(ben.disaster_id, ben.wallet@, category@);
            let after = t.voucher_record(ben.disaster_id, ben.wallet@, category@);
            &&& after.amount == before.amount + amount
            &&& after.expiry >= before.expiry
            &&& after.expiry >= expiry
            &&& t.voucher_balance(ben.disaster_id, ben.wallet@, category@, now) == before.amount
                + amount
        }),
{
}

/// A deposit adds exactly its amount to the disaster's vault.
pub proof fn law_deposit_accounting(s: ReliefChainView, admin: Address, disaster_id: u64, amount: i128)
    requires
        s.deposit_simulated(admin, disaster_id, amount).1 is Ok,
        s.vault_balance(disaster_id) + amount <= i128::MAX,
    ensures
        s.deposit_simulated(admin, disaster_id, amount).0.vault_balance(disaster_id) == s.vault_balance(
            disaster_id,
        ) + amount,
{
}

/// A redemption takes exactly the redeemed amount off the voucher and exactly
/// the payout off the vault, and stores a fresh, paid redemption record.
pub proof fn law_redemption_accounting(
    s: ReliefChainView,
    vendor: Address,
    beneficiary_wallet: Address,
    disaster_id: u64,
    category: Symbol,
    voucher_amount: i128,
    payout_amount: i128,
    now: u64,
)
    requires
        s.consistent(),
        s.last_redemption_id < u64::MAX,
        s.redeem_voucher(
            vendor,
            beneficiary_wallet,
            disaster_id,
            category,
            voucher_amount,
            payout_amount,
            now,
        ).1 is Ok,
    ensures
        ({
            let (t, r) = s.redeem_voucher(
                vendor,
                beneficiary_wallet,
                disaster_id,
                category,
                voucher_amount,
                payout_amount,
                now,
            );
            let id = r->Ok_0;
            &&& t.voucher_balance(disaster_id, beneficiary_wallet@, category@, now) == s.voucher_balance(
                disaster_id,
                beneficiary_wallet@,
                category@,
                now,
            ) - voucher_amount
            &&& t.vault_balance(disaster_id) == s.vault_balance(disaster_id) - payout_amount
            &&& !s.redemptions.contains_key(id)
            &&& t.get_redemption(id) is Ok
            &&& t.get_redemption(id)->Ok_0.status == RedemptionStatus::Paid
            &&& t.get_redemption(id)->Ok_0.voucher_amount == voucher_amount
            &&& t.get_redemption(id)->Ok_0.payout_amount == payout_amount
            &&& t.get_redemption(id)->Ok_0.beneficiary@ == beneficiary_wallet@
            &&& t.get_redemption(id)->Ok_0.vendor == vendor
        }),
{
}

/// Only an active vendor of the voucher's category, redeeming from a verified
/// beneficiary, is paid.
pub proof fn law_redeem_requires_approvals(
    s: ReliefChainView,
    vendor: Address,
    beneficiary_wallet: Address,
    disaster_id: u64,
    category: Symbol,
    voucher_amount: i128,
    payout_amount: i128,
    now: u64,
)
    requires
        s.redeem_voucher(
            vendor,
            beneficiary_wallet,
            disaster_id,
            category,
            voucher_amount,
            payout_amount,
            now,
        ).1 is Ok,
    ensures
        s.vendors.contains_key(vendor@),
        s.vendors[vendor@].status == VendorStatus::Active,
        s.vendors[vendor@].category@ == category@,
        s.beneficiary_by_wallet_lookup(disaster_id, beneficiary_wallet@) is Ok,
        s.beneficiary_by_wallet_lookup(disaster_id, beneficiary_wallet@)->Ok_0.status
            == BeneficiaryStatus::Verified,
        0 < voucher_amount <= s.voucher_balance(disaster_id, beneficiary_wallet@, category@, now),
        0 < payout_amount <= s.vault_balance(disaster_id),
{
}

/// An expired voucher is worth nothing and cannot be redeemed.
pub proof fn law_expired_voucher_worthless(
    s: ReliefChainView,
    vendor: Address,
    beneficiary_wallet: Address,
    disaster_id: u64,
    category: Symbol,
    voucher_amount: i128,
    payout_amount: i128,
    now: u64,
)
    requires
        s.voucher_record(disaster_id, beneficiary_wallet@, category@).expiry <= now,
    ensures
        s.voucher_balance(disaster_id, beneficiary_wallet@, category@, now) == 0,
        s.redeem_voucher(
            vendor,
            beneficiary_wallet,
            disaster_id,
            category,
            voucher_amount,
            payout_amount,
            now,
        ).1 is Err,
{
}

/// In a consistent ledger no balance is negative, and vouchers are held only
/// by wallets registered for the voucher's disaster.
pub proof fn law_balances_nonnegative(s: ReliefChainView, disaster_id: u64, wallet: Seq<char>, category: Seq<char>)
    requires
        s.consistent(),
    ensures
        s.vault_balance(disaster_id) >= 0,
        s.voucher_record(disaster_id, wallet, category).amount >= 0,
        s.vouchers.contains_key((disaster_id, wallet, category)) ==> s.beneficiary_by_wallet.contains_key(
            (disaster_id, wallet),
        ),
{
}

/// Vouchers cannot be moved between wallets: the only requests that touch
/// vouchers are issuing and redeeming, and each touches only the voucher of
/// the beneficiary it names.
pub proof fn law_vouchers_not_transferable(
    s: ReliefChainView,
    verifier: Address,
    vendor: Address,
    beneficiary_wallet: Address,
    beneficiary_id: u64,
    disaster_id: u64,
    category: Symbol,
    voucher_amount: i128,
    payout_amount: i128,
    expiry: u64,
    now: u64,
    key: (u64, Seq<char>, Seq<char>),
)
    requires
        s.consistent(),
    ensures
        key != (disaster_id, beneficiary_wallet@, category@) ==> s.redeem_voucher(
            vendor,
            beneficiary_wallet,
            disaster_id,
            category,
            voucher_amount,
            payout_amount,
            now,
        ).0.voucher_record(key.0, key.1, key.2) == s.voucher_record(key.0, key.1, key.2),
        s.beneficiaries.contains_key(beneficiary_id) && key != (
            s.beneficiaries[beneficiary_id].disaster_id,
            s.beneficiaries[beneficiary_id].wallet@,
            category@,
        ) ==> s.issue_voucher(verifier, beneficiary_id, category, voucher_amount, expiry, now).0.voucher_record(
            key.0,
            key.1,
            key.2,
        ) == s.voucher_record(key.0, key.1, key.2),
{
}

/// Vouchers change only by issuing and redeeming, and vault balances only by
/// deposits and redemptions: every other request leaves both untouched.
pub proof fn law_balances_change_only_by_their_requests(
    s: ReliefChainView,
    caller: Address,
    target: Address,
    id: u64,
    name: String,
    hash: [u8; 32],
    symbol: Symbol,
    time: u64,
    amount: i128,
    expiry: u64,
    now: u64,
)
    ensures
        s.initialize(caller).0.vouchers == s.vouchers && s.initialize(caller).0.vaults == s.vaults,
        s.add_verifier(caller, target).0.vouchers == s.vouchers,
        s.add_verifier(caller, target).0.vaults == s.vaults,
        s.remove_verifier(caller, target).0.vouchers == s.vouchers,
        s.remove_verifier(caller, target).0.vaults == s.vaults,
        s.create_disaster(caller, name, hash, symbol, time).0.vouchers == s.vouchers,
        s.create_disaster(caller, name, hash, symbol, time).0.vaults == s.vaults,
        s.activate_disaster(caller, id).0.vouchers == s.vouchers,
        s.activate_disaster(caller, id).0.vaults == s.vaults,
        s.close_disaster(caller, id).0.vouchers == s.vouchers,
        s.close_disaster(caller, id).0.vaults == s.vaults,
        s.register_beneficiary(caller, id, target, hash).0.vouchers == s.vouchers,
        s.register_beneficiary(caller, id, target, hash).0.vaults == s.vaults,
        s.verify_beneficiary(caller, id).0.vouchers == s.vouchers,
        s.verify_beneficiary(caller, id).0.vaults == s.vaults,
        s.reject_beneficiary(caller, id).0.vouchers == s.vouchers,
        s.reject_beneficiary(caller, id).0.vaults == s.vaults,
        s.register_vendor(caller, hash, symbol).0.vouchers == s.vouchers,
        s.register_vendor(caller, hash, symbol).0.vaults == s.vaults,
        s.approve_vendor(caller, target).0.vouchers == s.vouchers,
        s.approve_vendor(caller, target).0.vaults == s.vaults,
        s.suspend_vendor(caller, target).0.vouchers == s.vouchers,
        s.suspend_vendor(caller, target).0.vaults == s.vaults,
        s.issue_voucher(caller, id, symbol, amount, expiry, now).0.vaults == s.vaults,
        s.deposit_simulated(caller, id, amount).0.vouchers == s.vouchers,
{
}

// ------------------------------------------------------------
// Laws over sequences of requests
// ------------------------------------------------------------

/// Every sequence of requests that stays within the machine's integer ranges
/// keeps a consistent ledger consistent; in particular every state reached
/// from a fresh ledger is consistent.
pub proof fn law_run_keeps_consistency(s: ReliefChainView, requests: Seq<Request>)
    requires
        s.consistent(),
        s.admissible_run(requests),
    ensures
        s.run(requests).consistent(),
    decreases requests.len(),
{
    if requests.len() > 0 {
        law_run_keeps_consistency(s, requests.drop_last());
        law_step_keeps_consistency(s.run(requests.drop_last()), requests.last());
    }
}

/// One request changes the voucher under `key` by exactly what it issues on
/// it minus what it redeems from it.
pub proof fn law_step_voucher_change(s: ReliefChainView, request: Request, key: (u64, Seq<char>, Seq<char>))
    requires
        s.admissible(request),
    ensures
        s.step(request).0.voucher_record(key.0, key.1, key.2).amount == s.voucher_record(
            key.0,
            key.1,
            key.2,
        ).amount + s.issue_credit(request, key) - s.redeem_debit(request, key),
{
}

/// One request changes the vault of `disaster_id` by exactly what it
/// deposits minus what it pays out.
pub proof fn law_step_vault_change(s: ReliefChainView, request: Request, disaster_id: u64)
    requires
        s.admissible(request),
    ensures
        s.step(request).0.vault_balance(disaster_id) == s.vault_balance(disaster_id) + s.deposit_credit(
            request,
            disaster_id,
        ) - s.payout_debit(request, disaster_id),
{
}

/// A voucher holds what was issued on it minus what was redeemed from it;
/// from a fresh ledger, exactly the issues minus the redemptions.
pub proof fn law_voucher_is_issues_minus_redemptions(
    s: ReliefChainView,
    requests: Seq<Request>,
    key: (u64, Seq<char>, Seq<char>),
)
    requires
        s.admissible_run(requests),
    ensures
        s.run(requests).voucher_record(key.0, key.1, key.2).amount == s.voucher_record(
            key.0,
            key.1,
            key.2,
        ).amount + s.issued(requests, key) - s.redeemed(requests, key),
        s == ReliefChainView::initial() ==> s.run(requests).voucher_record(key.0, key.1, key.2).amount
            == s.issued(requests, key) - s.redeemed(requests, key),
    decreases requests.len(),
{
    if requests.len() > 0 {
        law_voucher_is_issues_minus_redemptions(s, requests.drop_last(), key);
        law_step_voucher_change(s.run(requests.drop_last()), requests.last(), key);
    }
}

/// A vault holds what was deposited minus what was paid out; from a fresh
/// ledger, exactly the deposits minus the payouts.
pub proof fn law_vault_is_deposits_minus_payouts(s: ReliefChainView, requests: Seq<Request>, disaster_id: u64)
    requires
        s.admissible_run(requests),
    ensures
        s.run(requests).vault_balance(disaster_id) == s.vault_balance(disaster_id) + s.deposited(
            requests,
            disaster_id,
        ) - s.paid_out(requests, disaster_id),
        s == ReliefChainView::initial() ==> s.run(requests).vault_balance(disaster_id) == s.deposited(
            requests,
            disaster_id,
        ) - s.paid_out(requests, disaster_id),
    decreases requests.len(),
{
    if requests.len() > 0 {
        law_vault_is_deposits_minus_payouts(s, requests.drop_last(), disaster_id);
        law_step_vault_change(s.run(requests.drop_last()), requests.last(), disaster_id);
    }
}

/// From a fresh ledger, the admin is the one named by the first
/// initialization request, and there is none before it.
pub proof fn law_admin_is_first_initializer(requests: Seq<Request>)
    ensures
        ReliefChainView::initial().run(requests).admin == first_initialize(requests),
    decreases requests.len(),
{
    if requests.len() > 0 {
        law_admin_is_first_initializer(requests.drop_last());
    }
}

/// One request sets the verifier flag of `wallet` only by a successful grant
/// or revocation for it.
pub proof fn law_step_verifier_flag(s: ReliefChainView, request: Request, wallet: Seq<char>)
    ensures
        s.step(request).0.is_verifier(wallet) == match s.role_change(request, wallet) {
            Some(flag) => flag,
            None => s.is_verifier(wallet),
        },
{
}

/// Whether a wallet is a verifier is what the last successful grant or
/// revocation for it set; from a fresh ledger, without one it is not.
pub proof fn law_verifier_is_last_role_change(s: ReliefChainView, requests: Seq<Request>, wallet: Seq<char>)
    ensures
        s.run(requests).is_verifier(wallet) == match s.last_role_change(requests, wallet) {
            Some(flag) => flag,
            None => s.is_verifier(wallet),
        },
        s == ReliefChainView::initial() ==> s.run(requests).is_verifier(wallet) == (s.last_role_change(
            requests,
            wallet,
        ) == Some(true)),
    decreases requests.len(),
{
    if requests.len() > 0 {
        law_verifier_is_last_role_change(s, requests.drop_last(), wallet);
        law_step_verifier_flag(s.run(requests.drop_last()), requests.last(), wallet);
    }
}

/// A wallet without the verifier role keeps lacking it until it is granted
/// the role again; meanwhile every verifier request it makes is refused.
pub proof fn law_removed_verifier_stays_removed(s: ReliefChainView, requests: Seq<Request>, wallet: Seq<char>)
    requires
        !s.is_verifier(wallet),
        forall|i: int| 0 <= i < requests.len() ==> !grants_verifier(#[trigger] requests[i], wallet),
    ensures
        !s.run(requests).is_verifier(wallet),
        s.run(requests).verifier_refusal(wallet) == Some(Error::Unauthorized),
    decreases requests.len(),
{
    if requests.len() > 0 {
        let prefix = requests.drop_last();
        assert forall|i: int| 0 <= i < prefix.len() implies !grants_verifier(#[trigger] prefix[i], wallet) by {
            assert(prefix[i] == requests[i]);
        }
        law_removed_verifier_stays_removed(s, prefix, wallet);
        assert(!grants_verifier(requests[requests.len() - 1], wallet));
        law_step_verifier_flag(s.run(prefix), requests.last(), wallet);
    }
}

/// A registered disaster that is not active stays registered and inactive
/// until it is activated again.
pub proof fn law_inactive_disaster_stays_inactive(s: ReliefChainView, requests: Seq<Request>, disaster_id: u64)
    requires
        s.disasters.contains_key(disaster_id),
        s.disasters[disaster_id].status != DisasterStatus::Active,
        forall|i: int| 0 <= i < requests.len() ==> !activates(#[trigger] requests[i], disaster_id),
    ensures
        s.run(requests).disasters.contains_key(disaster_id),
        s.run(requests).disasters[disaster_id].status != DisasterStatus::Active,
        s.run(requests).active_disaster_refusal(disaster_id) == Some(Error::DisasterNotActive),
    decreases requests.len(),
{
    if requests.len() > 0 {
        let prefix = requests.drop_last();
        assert forall|i: int| 0 <= i < prefix.len() implies !activates(#[trigger] prefix[i], disaster_id) by {
            assert(prefix[i] == requests[i]);
        }
        law_inactive_disaster_stays_inactive(s, prefix, disaster_id);
        assert(!activates(requests[requests.len() - 1], disaster_id));
    }
}

/// A registered vendor that is not active stays registered and inactive until
/// it is approved again.
pub proof fn law_inactive_vendor_stays_inactive(s: ReliefChainView, requests: Seq<Request>, vendor: Seq<char>)
    requires
        s.vendors.contains_key(vendor),
        s.vendors[vendor].status != VendorStatus::Active,
        forall|i: int| 0 <= i < requests.len() ==> !approves(#[trigger] requests[i], vendor),
    ensures
        s.run(requests).vendors.contains_key(vendor),
        s.run(requests).vendors[vendor].status != VendorStatus::Active,
    decreases requests.len(),
{
    if requests.len() > 0 {
        let prefix = requests.drop_last();
        assert forall|i: int| 0 <= i < prefix.len() implies !approves(#[trigger] prefix[i], vendor) by {
            assert(prefix[i] == requests[i]);
        }
        law_inactive_vendor_stays_inactive(s, prefix, vendor);
        assert(!approves(requests[requests.len() - 1], vendor));
    }
}

/// One request changes a stored beneficiary only by moving it from
/// `Pending` to `Verified` or `Rejected`; its id, wallet, disaster and
/// credential never change, and a newly registered beneficiary is `Pending`.
pub proof fn law_step_beneficiary_records(s: ReliefChainView, request: Request, id: u64)
    requires
        s.consistent(),
        s.admissible(request),
    ensures
        ({
            let t = s.step(request).0;
            &&& s.beneficiaries.contains_key(id) ==> {
                let before = s.beneficiaries[id];
                let after = t.beneficiaries[id];
                &&& t.beneficiaries.contains_key(id)
                &&& after.id == before.id
                &&& after.wallet == before.wallet
                &&& after.disaster_id == before.disaster_id
                &&& after.credential_hash == before.credential_hash
                &&& (after.status == before.status || (before.status == BeneficiaryStatus::Pending && (
                after.status == BeneficiaryStatus::Verified || after.status
                    == BeneficiaryStatus::Rejected)))
            }
            &&& !s.beneficiaries.contains_key(id) && t.beneficiaries.contains_key(id)
                ==> t.beneficiaries[id].status == BeneficiaryStatus::Pending
        }),
{
    if s.beneficiaries.contains_key(id) {
        assert(id <= s.last_beneficiary_id);
    }
}

/// A verified or rejected beneficiary never changes again.
pub proof fn law_reviewed_beneficiary_is_final(s: ReliefChainView, requests: Seq<Request>, id: u64)
    requires
        s.consistent(),
        s.admissible_run(requests),
        s.beneficiaries.contains_key(id),
        s.beneficiaries[id].status == BeneficiaryStatus::Verified || s.beneficiaries[id].status
            == BeneficiaryStatus::Rejected,
    ensures
        s.run(requests).beneficiaries.contains_key(id),
        s.run(requests).beneficiaries[id] == s.beneficiaries[id],
    decreases requests.len(),
{
    if requests.len() > 0 {
        let prefix = requests.drop_last();
        law_reviewed_beneficiary_is_final(s, prefix, id);
        law_run_keeps_consistency(s, prefix);
        law_step_beneficiary_records(s.run(prefix), requests.last(), id);
    }
}

/// From a fresh ledger, no beneficiary is ever `Assisted`: every one is
/// `Pending`, `Verified` or `Rejected`.
pub proof fn law_no_beneficiary_assisted(requests: Seq<Request>, id: u64)
    requires
        ReliefChainView::initial().admissible_run(requests),
    ensures
        ReliefChainView::initial().run(requests).beneficiaries.contains_key(id) ==> ReliefChainView::initial().run(
            requests,
        ).beneficiaries[id].status != BeneficiaryStatus::Assisted,
    decreases requests.len(),
{
    if requests.len() > 0 {
        let prefix = requests.drop_last();
        law_no_beneficiary_assisted(prefix, id);
        law_run_keeps_consistency(ReliefChainView::initial(), prefix);
        law_step_beneficiary_records(ReliefChainView::initial().run(prefix), requests.last(), id);
    }
}

/// One request never changes or removes a stored redemption.
pub proof fn law_step_redemptions_kept(s: ReliefChainView, request: Request, id: u64)
    requires
        s.consistent(),
        s.admissible(request),
        s.redemptions.contains_key(id),
    ensures
        s.step(request).0.redemptions.contains_key(id),
        s.step(request).0.redemptions[id] == s.redemptions[id],
{
    assert(id <= s.last_redemption_id);
}

/// A stored redemption never changes.
pub proof fn law_redemptions_never_change(s: ReliefChainView, requests: Seq<Request>, id: u64)
    requires
        s.consistent(),
        s.admissible_run(requests),
        s.redemptions.contains_key(id),
    ensures
        s.run(requests).redemptions.contains_key(id),
        s.run(requests).redemptions[id] == s.redemptions[id],
    decreases requests.len(),
{
    if requests.len() > 0 {
        let prefix = requests.drop_last();
        law_redemptions_never_change(s, prefix, id);
        law_run_keeps_consistency(s, prefix);
        law_step_redemptions_kept(s.run(prefix), requests.last(), id);
    }
}

/// One request indexes `wallet` for `disaster_id` only by successfully
/// registering it there, and never drops an index entry.
pub proof fn law_step_wallet_index(s: ReliefChainView, request: Request, disaster_id: u64, wallet: Seq<char>)
    ensures
        s.step(request).0.beneficiary_by_wallet.contains_key((disaster_id, wallet)) == (
        s.beneficiary_by_wallet.contains_key((disaster_id, wallet)) || s.registers(
            request,
            disaster_id,
            wallet,
        )),
{
}

/// From a fresh ledger, looking a wallet up for a disaster finds a
/// beneficiary exactly when some request registered that wallet for that
/// disaster, and then finds the stored beneficiary of that wallet and
/// disaster.
pub proof fn law_wallet_index_is_registrations(requests: Seq<Request>, disaster_id: u64, wallet: Seq<char>)
    requires
        ReliefChainView::initial().admissible_run(requests),
    ensures
        ({
            let t = ReliefChainView::initial().run(requests);
            let found = t.beneficiary_by_wallet_lookup(disaster_id, wallet);
            &&& found is Ok == ReliefChainView::initial().registered(requests, disaster_id, wallet)
            &&& found matches Ok(b) ==> {
                &&& t.beneficiaries.contains_key(b.id)
                &&& t.beneficiaries[b.id] == b
                &&& b.wallet@ == wallet
                &&& b.disaster_id == disaster_id
            }
        }),
{
    lemma_wallet_index_is_registrations(requests, disaster_id, wallet);
    law_run_keeps_consistency(ReliefChainView::initial(), requests);
}

proof fn lemma_wallet_index_is_registrations(requests: Seq<Request>, disaster_id: u64, wallet: Seq<char>)
    ensures
        ReliefChainView::initial().run(requests).beneficiary_by_wallet.contains_key((disaster_id, wallet))
            == ReliefChainView::initial().registered(requests, disaster_id, wallet),
    decreases requests.len(),
{
    if requests.len() > 0 {
        let prefix = requests.drop_last();
        lemma_wallet_index_is_registrations(prefix, disaster_id, wallet);
        law_step_wallet_index(ReliefChainView::initial().run(prefix), requests.last(), disaster_id, wallet);
    }
}

/// Registration is unique per disaster and wallet, not per wallet: a wallet
/// registered for one disaster can still be registered for another active
/// disaster, as a different beneficiary, and each lookup finds its own.
pub proof fn law_registration_per_disaster_and_wallet(
    s: ReliefChainView,
    verifier: Address,
    first_disaster: u64,
    second_disaster: u64,
    wallet: Address,
    same_wallet: Address,
    first_hash: [u8; 32],
    second_hash: [u8; 32],
)
    requires
        s.consistent(),
        s.last_beneficiary_id < u64::MAX - 1,
        same_wallet@ == wallet@,
        first_disaster != second_disaster,
        s.register_beneficiary(verifier, first_disaster, wallet, first_hash).1 is Ok,
        s.active_disaster_refusal(second_disaster) is None,
        !s.beneficiary_by_wallet.contains_key((second_disaster, wallet@)),
    ensures
        ({
            let (t, first) = s.register_beneficiary(verifier, first_disaster, wallet, first_hash);
            let (u, second) = t.register_beneficiary(verifier, second_disaster, same_wallet, second_hash);
            &&& second is Ok
            &&& second->Ok_0 != first->Ok_0
            &&& u.beneficiary_by_wallet_lookup(first_disaster, wallet@) == u.get_beneficiary(first->Ok_0)
            &&& u.beneficiary_by_wallet_lookup(second_disaster, wallet@) == u.get_beneficiary(second->Ok_0)
        }),
{
}

/// Closing a disaster keeps its record but marks it `Closed`; from then on,
/// registrations, vouchers, deposits and redemptions for it are refused as
/// `DisasterNotActive` once they pass their earlier checks.
pub proof fn law_close_disaster(s: ReliefChainView, admin: Address, disaster_id: u64)
    requires
        s.close_disaster(admin, disaster_id).1 is Ok,
    ensures
        s.close_disaster(admin, disaster_id).0.get_disaster(disaster_id) == Ok::<DisasterEvent, Error>(
            DisasterEvent { status: DisasterStatus::Closed, ..s.disasters[disaster_id] },
        ),
        s.close_disaster(admin, disaster_id).0.active_disaster_refusal(disaster_id) == Some(
            Error::DisasterNotActive,
        ),
{
}

/// Where a disaster is registered but not active, every request that needs
/// it active and passes its earlier checks is refused as
/// `DisasterNotActive` and changes nothing.
pub proof fn law_inactive_disaster_refusals(
    s: ReliefChainView,
    admin: Address,
    verifier: Address,
    vendor: Address,
    disaster_id: u64,
    wallet: Address,
    credential_hash: [u8; 32],
    beneficiary_id: u64,
    category: Symbol,
    amount: i128,
    payout_amount: i128,
    expiry: u64,
    now: u64,
)
    requires
        s.disasters.contains_key(disaster_id),
        s.disasters[disaster_id].status != DisasterStatus::Active,
    ensures
        s.is_verifier(verifier@) ==> s.register_beneficiary(verifier, disaster_id, wallet, credential_hash)
            == (s, Err::<u64, Error>(Error::DisasterNotActive)),
        s.admin_refusal(admin@) is None && amount > 0 ==> s.deposit_simulated(admin, disaster_id, amount)
            == (s, Err::<(), Error>(Error::DisasterNotActive)),
        amount > 0 && payout_amount > 0 ==> s.redeem_voucher(
            vendor,
            wallet,
            disaster_id,
            category,
            amount,
            payout_amount,
            now,
        ) == (s, Err::<u64, Error>(Error::DisasterNotActive)),
        s.is_verifier(verifier@) && amount > 0 && expiry > now && s.beneficiaries.contains_key(beneficiary_id)
            && s.beneficiaries[beneficiary_id].status == BeneficiaryStatus::Verified
            && s.beneficiaries[beneficiary_id].disaster_id == disaster_id ==> s.issue_voucher(
            verifier,
            beneficiary_id,
            category,
            amount,
            expiry,
            now,
        ) == (s, Err::<(), Error>(Error::DisasterNotActive)),
{
}

/// Suspending a vendor keeps its record but marks it `Suspended`; from then
/// on its redemptions of positive amounts for an active disaster are refused
/// as `VendorNotActive` and change nothing.
pub proof fn law_suspend_vendor(
    s: ReliefChainView,
    admin: Address,
    vendor: Address,
    beneficiary_wallet: Address,
    disaster_id: u64,
    category: Symbol,
    voucher_amount: i128,
    payout_amount: i128,
    now: u64,
)
    requires
        s.suspend_vendor(admin, vendor).1 is Ok,
    ensures
        ({
            let t = s.suspend_vendor(admin, vendor).0;
            &&& t.get_vendor(vendor@) == Ok::<Vendor, Error>(
                Vendor { status: VendorStatus::Suspended, ..s.vendors[vendor@] },
            )
            &&& voucher_amount > 0 && payout_amount > 0 && t.active_disaster_refusal(disaster_id) is None
                ==> t.redeem_voucher(
                vendor,
                beneficiary_wallet,
                disaster_id,
                category,
                voucher_amount,
                payout_amount,
                now,
            ) == (t, Err::<u64, Error>(Error::VendorNotActive))
        }),
{
}

/// No request moves value between vouchers: a voucher grows only by a
/// successful issue on it, shrinks only by a successful redemption of it,
/// and no request both takes from one voucher and adds to another.
pub proof fn law_no_request_moves_vouchers(
    s: ReliefChainView,
    request: Request,
    from: (u64, Seq<char>, Seq<char>),
    to: (u64, Seq<char>, Seq<char>),
)
    requires
        s.admissible(request),
    ensures
        ({
            let t = s.step(request).0;
            &&& t.voucher_record(to.0, to.1, to.2).amount > s.voucher_record(to.0, to.1, to.2).amount
                ==> request is IssueVoucher && s.issue_credit(request, to) > 0
            &&& t.voucher_record(from.0, from.1, from.2).amount < s.voucher_record(
                from.0,
                from.1,
                from.2,
            ).amount ==> request is RedeemVoucher && s.redeem_debit(request, from) > 0
            &&& !(t.voucher_record(from.0, from.1, from.2).amount < s.voucher_record(
                from.0,
                from.1,
                from.2,
            ).amount && t.voucher_record(to.0, to.1, to.2).amount > s.voucher_record(
                to.0,
                to.1,
                to.2,
            ).amount)
        }),
{
    law_step_voucher_change(s, request, from);
    law_step_voucher_change(s, request, to);
}

} // verus!
