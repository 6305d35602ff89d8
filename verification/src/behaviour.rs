//! What each request does, stated directly over the ledger's maps: exactly
//! when it succeeds, which refusal comes where, and what the ledger looks
//! like afterwards.

use vstd::prelude::*;
use crate::model::ReliefChainView;
use crate::types::{
    Address, Beneficiary, BeneficiaryStatus, DisasterEvent, DisasterStatus, Error, Event, Redemption,
    RedemptionStatus, Symbol, Vendor, VendorStatus, VoucherBalance,
};

verus! {

/// `initialize` succeeds exactly on a ledger without an admin, and then makes
/// the given address the admin and publishes that.
pub proof fn law_initialize_behaviour(s: ReliefChainView, admin: Address)
    ensures
        (s.initialize(admin).1 is Ok) == (s.admin is None),
        s.admin is None ==> s.initialize(admin).0 == (ReliefChainView {
            admin: Some(admin),
            events: s.events.push(Event::Initialized { admin }),
            ..s
        }),
        s.admin is Some ==> s.initialize(admin) == (s, Err::<(), Error>(Error::AlreadyInitialized)),
{
}

/// Granting or revoking the verifier role succeeds exactly for the admin and
/// then sets only the wallet's flag; before initialization it is refused as
/// `NotInitialized`, and for anyone else as `Unauthorized`.
pub proof fn law_verifier_role_behaviour(s: ReliefChainView, caller: Address, verifier: Address)
    ensures
        (s.add_verifier(caller, verifier).1 is Ok) == (s.admin matches Some(a) && a@ == caller@),
        (s.remove_verifier(caller, verifier).1 is Ok) == (s.admin matches Some(a) && a@ == caller@),
        s.admin matches Some(a) && a@ == caller@ ==> {
            &&& s.add_verifier(caller, verifier).0 == (ReliefChainView {
                verifiers: s.verifiers.insert(verifier@, true),
                events: s.events.push(Event::VerifierAdded { verifier }),
                ..s
            })
            &&& s.remove_verifier(caller, verifier).0 == (ReliefChainView {
                verifiers: s.verifiers.insert(verifier@, false),
                events: s.events.push(Event::VerifierRemoved { verifier }),
                ..s
            })
        },
        s.admin is None ==> {
            &&& s.add_verifier(caller, verifier) == (s, Err::<(), Error>(Error::NotInitialized))
            &&& s.remove_verifier(caller, verifier) == (s, Err::<(), Error>(Error::NotInitialized))
        },
        s.admin matches Some(a) && a@ != caller@ ==> {
            &&& s.add_verifier(caller, verifier) == (s, Err::<(), Error>(Error::Unauthorized))
            &&& s.remove_verifier(caller, verifier) == (s, Err::<(), Error>(Error::Unauthorized))
        },
{
}

/// Creating a disaster succeeds exactly for the admin; the new disaster gets
/// the next id and is stored in `Draft` with the given details.
pub proof fn law_create_disaster_behaviour(
    s: ReliefChainView,
    caller: Address,
    name: String,
    location_hash: [u8; 32],
    disaster_type: Symbol,
    start_time: u64,
)
    requires
        s.last_disaster_id < u64::MAX,
    ensures
        ({
            let (t, r) = s.create_disaster(caller, name, location_hash, disaster_type, start_time);
            let id = (s.last_disaster_id + 1) as u64;
            &&& (r is Ok) == (s.admin matches Some(a) && a@ == caller@)
            &&& r is Ok ==> r == Ok::<u64, Error>(id) && t == (ReliefChainView {
                last_disaster_id: id,
                disasters: s.disasters.insert(
                    id,
                    DisasterEvent {
                        id,
                        name,
                        location_hash,
                        disaster_type,
                        start_time,
                        status: DisasterStatus::Draft,
                    },
                ),
                events: s.events.push(Event::DisasterCreated { disaster_id: id }),
                ..s
            })
            &&& s.admin is None ==> (t, r) == (s, Err::<u64, Error>(Error::NotInitialized))
            &&& (s.admin matches Some(a) && a@ != caller@) ==> (t, r) == (
                s,
                Err::<u64, Error>(Error::Unauthorized),
            )
        }),
{
}

/// Activating or closing a disaster succeeds exactly for the admin on a
/// registered disaster, whatever its status (a draft may be closed, a closed
/// disaster may be reopened), and sets only its status.
pub proof fn law_disaster_status_behaviour(s: ReliefChainView, caller: Address, id: u64)
    ensures
        (s.activate_disaster(caller, id).1 is Ok) == (s.admin matches Some(a) && a@ == caller@
            && s.disasters.contains_key(id)),
        (s.close_disaster(caller, id).1 is Ok) == (s.admin matches Some(a) && a@ == caller@
            && s.disasters.contains_key(id)),
        s.admin matches Some(a) && a@ == caller@ && s.disasters.contains_key(id) ==> {
            &&& s.activate_disaster(caller, id).0 == (ReliefChainView {
                disasters: s.disasters.insert(
                    id,
                    DisasterEvent { status: DisasterStatus::Active, ..s.disasters[id] },
                ),
                events: s.events.push(Event::DisasterActivated { disaster_id: id }),
                ..s
            })
            &&& s.close_disaster(caller, id).0 == (ReliefChainView {
                disasters: s.disasters.insert(
                    id,
                    DisasterEvent { status: DisasterStatus::Closed, ..s.disasters[id] },
                ),
                events: s.events.push(Event::DisasterClosed { disaster_id: id }),
                ..s
            })
        },
        s.admin is None ==> {
            &&& s.activate_disaster(caller, id) == (s, Err::<(), Error>(Error::NotInitialized))
            &&& s.close_disaster(caller, id) == (s, Err::<(), Error>(Error::NotInitialized))
        },
        s.admin matches Some(a) && a@ != caller@ ==> {
            &&& s.activate_disaster(caller, id) == (s, Err::<(), Error>(Error::Unauthorized))
            &&& s.close_disaster(caller, id) == (s, Err::<(), Error>(Error::Unauthorized))
        },
        s.admin matches Some(a) && a@ == caller@ && !s.disasters.contains_key(id) ==> {
            &&& s.activate_disaster(caller, id) == (s, Err::<(), Error>(Error::DisasterNotFound))
            &&& s.close_disaster(caller, id) == (s, Err::<(), Error>(Error::DisasterNotFound))
        },
{
}

/// Looking up a disaster, beneficiary, vendor or redemption finds exactly the
/// stored record, and is refused as not found where there is none.
pub proof fn law_lookups_behaviour(s: ReliefChainView, id: u64, vendor: Seq<char>)
    ensures
        s.disasters.contains_key(id) ==> s.get_disaster(id) == Ok::<DisasterEvent, Error>(s.disasters[id]),
        !s.disasters.contains_key(id) ==> s.get_disaster(id) == Err::<DisasterEvent, Error>(
            Error::DisasterNotFound,
        ),
        s.beneficiaries.contains_key(id) ==> s.get_beneficiary(id) == Ok::<Beneficiary, Error>(
            s.beneficiaries[id],
        ),
        !s.beneficiaries.contains_key(id) ==> s.get_beneficiary(id) == Err::<Beneficiary, Error>(
            Error::BeneficiaryNotFound,
        ),
        s.vendors.contains_key(vendor) ==> s.get_vendor(vendor) == Ok::<Vendor, Error>(s.vendors[vendor]),
        !s.vendors.contains_key(vendor) ==> s.get_vendor(vendor) == Err::<Vendor, Error>(
            Error::VendorNotFound,
        ),
        s.redemptions.contains_key(id) ==> s.get_redemption(id) == Ok::<Redemption, Error>(
            s.redemptions[id],
        ),
        !s.redemptions.contains_key(id) ==> s.get_redemption(id) == Err::<Redemption, Error>(
            Error::RedemptionNotFound,
        ),
{
}

/// Looking up a wallet for a disaster finds the beneficiary its index entry
/// names, and is refused as `BeneficiaryNotFound` without one.
pub proof fn law_wallet_lookup_behaviour(s: ReliefChainView, disaster_id: u64, wallet: Seq<char>)
    ensures
        s.beneficiary_by_wallet.contains_key((disaster_id, wallet)) && s.beneficiaries.contains_key(
            s.beneficiary_by_wallet[(disaster_id, wallet)],
        ) ==> s.beneficiary_by_wallet_lookup(disaster_id, wallet) == Ok::<Beneficiary, Error>(
            s.beneficiaries[s.beneficiary_by_wallet[(disaster_id, wallet)]],
        ),
        !s.beneficiary_by_wallet.contains_key((disaster_id, wallet)) ==> s.beneficiary_by_wallet_lookup(
            disaster_id,
            wallet,
        ) == Err::<Beneficiary, Error>(Error::BeneficiaryNotFound),
{
}

/// The balance reads: a vault without deposits holds 0; a voucher never
/// issued reads as amount 0 and expiry 0; a voucher is worth its amount
/// strictly before its expiry and nothing from its expiry on; the verifier
/// flag is the stored one, false where none was stored.
pub proof fn law_balance_reads_behaviour(
    s: ReliefChainView,
    disaster_id: u64,
    wallet: Seq<char>,
    category: Seq<char>,
    now: u64,
)
    ensures
        s.vault_balance(disaster_id) == if s.vaults.contains_key(disaster_id) {
            s.vaults[disaster_id]
        } else {
            0i128
        },
        s.voucher_record(disaster_id, wallet, category) == if s.vouchers.contains_key(
            (disaster_id, wallet, category),
        ) {
            s.vouchers[(disaster_id, wallet, category)]
        } else {
            VoucherBalance { amount: 0, expiry: 0 }
        },
        s.vouchers.contains_key((disaster_id, wallet, category)) && now < s.vouchers[(
            disaster_id,
            wallet,
            category,
        )].expiry ==> s.voucher_balance(disaster_id, wallet, category, now) == s.vouchers[(
            disaster_id,
            wallet,
            category,
        )].amount,
        !(s.vouchers.contains_key((disaster_id, wallet, category)) && now < s.vouchers[(
            disaster_id,
            wallet,
            category,
        )].expiry) ==> s.voucher_balance(disaster_id, wallet, category, now) == 0,
        s.is_verifier(wallet) == (s.verifiers.contains_key(wallet) && s.verifiers[wallet]),
{
}

/// Registering a beneficiary succeeds exactly when a verifier registers a
/// wallet not yet registered for an active disaster; the new beneficiary
/// gets the next id, is `Pending`, and is indexed under its disaster and
/// wallet. Refusals come in this order: `Unauthorized`, `DisasterNotFound`,
/// `DisasterNotActive`, `BeneficiaryAlreadyRegistered`.
pub proof fn law_register_beneficiary_behaviour(
    s: ReliefChainView,
    verifier: Address,
    disaster_id: u64,
    wallet: Address,
    credential_hash: [u8; 32],
)
    requires
        s.last_beneficiary_id < u64::MAX,
    ensures
        ({
            let (t, r) = s.register_beneficiary(verifier, disaster_id, wallet, credential_hash);
            let is_verifier = s.verifiers.contains_key(verifier@) && s.verifiers[verifier@];
            let exists = s.disasters.contains_key(disaster_id);
            let active = exists && s.disasters[disaster_id].status == DisasterStatus::Active;
            let registered = s.beneficiary_by_wallet.contains_key((disaster_id, wallet@));
            let id = (s.last_beneficiary_id + 1) as u64;
            &&& (r is Ok) == (is_verifier && active && !registered)
            &&& r is Ok ==> r == Ok::<u64, Error>(id) && t == (ReliefChainView {
                last_beneficiary_id: id,
                beneficiaries: s.beneficiaries.insert(
                    id,
                    Beneficiary {
                        id,
                        wallet,
                        disaster_id,
                        credential_hash,
                        status: BeneficiaryStatus::Pending,
                    },
                ),
                beneficiary_by_wallet: s.beneficiary_by_wallet.insert((disaster_id, wallet@), id),
                events: s.events.push(
                    Event::BeneficiaryRegistered { disaster_id, beneficiary_id: id, wallet },
                ),
                ..s
            })
            &&& !is_verifier ==> (t, r) == (s, Err::<u64, Error>(Error::Unauthorized))
            &&& is_verifier && !exists ==> (t, r) == (s, Err::<u64, Error>(Error::DisasterNotFound))
            &&& is_verifier && exists && !active ==> (t, r) == (
                s,
                Err::<u64, Error>(Error::DisasterNotActive),
            )
            &&& is_verifier && active && registered ==> (t, r) == (
                s,
                Err::<u64, Error>(Error::BeneficiaryAlreadyRegistered),
            )
        }),
{
}

/// Verifying or rejecting a beneficiary succeeds exactly when a verifier
/// reviews a stored `Pending` beneficiary, whatever the status of its
/// disaster, and sets only its status. Refusals come in this order:
/// `Unauthorized`, `BeneficiaryNotFound`, `InvalidStatus`.
pub proof fn law_review_behaviour(s: ReliefChainView, verifier: Address, id: u64)
    ensures
        ({
            let is_verifier = s.verifiers.contains_key(verifier@) && s.verifiers[verifier@];
            let stored = s.beneficiaries.contains_key(id);
            let pending = stored && s.beneficiaries[id].status == BeneficiaryStatus::Pending;
            &&& (s.verify_beneficiary(verifier, id).1 is Ok) == (is_verifier && pending)
            &&& (s.reject_beneficiary(verifier, id).1 is Ok) == (is_verifier && pending)
            &&& is_verifier && pending ==> {
                &&& s.verify_beneficiary(verifier, id).0 == (ReliefChainView {
                    beneficiaries: s.beneficiaries.insert(
                        id,
                        Beneficiary { status: BeneficiaryStatus::Verified, ..s.beneficiaries[id] },
                    ),
                    events: s.events.push(Event::BeneficiaryVerified { beneficiary_id: id }),
                    ..s
                })
                &&& s.reject_beneficiary(verifier, id).0 == (ReliefChainView {
                    beneficiaries: s.beneficiaries.insert(
                        id,
                        Beneficiary { status: BeneficiaryStatus::Rejected, ..s.beneficiaries[id] },
                    ),
                    events: s.events.push(Event::BeneficiaryRejected { beneficiary_id: id }),
                    ..s
                })
            }
            &&& !is_verifier ==> {
                &&& s.verify_beneficiary(verifier, id) == (s, Err::<(), Error>(Error::Unauthorized))
                &&& s.reject_beneficiary(verifier, id) == (s, Err::<(), Error>(Error::Unauthorized))
            }
            &&& is_verifier && !stored ==> {
                &&& s.verify_beneficiary(verifier, id) == (s, Err::<(), Error>(Error::BeneficiaryNotFound))
                &&& s.reject_beneficiary(verifier, id) == (s, Err::<(), Error>(Error::BeneficiaryNotFound))
            }
            &&& is_verifier && stored && !pending ==> {
                &&& s.verify_beneficiary(verifier, id) == (s, Err::<(), Error>(Error::InvalidStatus))
                &&& s.reject_beneficiary(verifier, id) == (s, Err::<(), Error>(Error::InvalidStatus))
            }
        }),
{
}

/// Registering a vendor succeeds exactly for a wallet without a vendor
/// record, which is then stored `Pending`; a wallet that has a record, in any
/// status, is refused as `InvalidStatus` and its record is kept.
pub proof fn law_register_vendor_behaviour(
    s: ReliefChainView,
    vendor: Address,
    metadata_hash: [u8; 32],
    category: Symbol,
)
    ensures
        (s.register_vendor(vendor, metadata_hash, category).1 is Ok) == !s.vendors.contains_key(vendor@),
        !s.vendors.contains_key(vendor@) ==> s.register_vendor(vendor, metadata_hash, category).0 == (
        ReliefChainView {
            vendors: s.vendors.insert(
                vendor@,
                Vendor { wallet: vendor, metadata_hash, category, status: VendorStatus::Pending },
            ),
            events: s.events.push(Event::VendorRegistered { vendor }),
            ..s
        }),
        s.vendors.contains_key(vendor@) ==> s.register_vendor(vendor, metadata_hash, category) == (
            s,
            Err::<(), Error>(Error::InvalidStatus),
        ),
{
}

/// Approving or suspending a vendor succeeds exactly for the admin on a
/// registered vendor, and sets only its status. Refusals come in this
/// order: `NotInitialized`, `Unauthorized`, `VendorNotFound`.
pub proof fn law_vendor_status_behaviour(s: ReliefChainView, caller: Address, vendor: Address)
    ensures
        (s.approve_vendor(caller, vendor).1 is Ok) == (s.admin matches Some(a) && a@ == caller@
            && s.vendors.contains_key(vendor@)),
        (s.suspend_vendor(caller, vendor).1 is Ok) == (s.admin matches Some(a) && a@ == caller@
            && s.vendors.contains_key(vendor@)),
        s.admin matches Some(a) && a@ == caller@ && s.vendors.contains_key(vendor@) ==> {
            &&& s.approve_vendor(caller, vendor).0 == (ReliefChainView {
                vendors: s.vendors.insert(
                    vendor@,
                    Vendor { status: VendorStatus::Active, ..s.vendors[vendor@] },
                ),
                events: s.events.push(Event::VendorApproved { vendor }),
                ..s
            })
            &&& s.suspend_vendor(caller, vendor).0 == (ReliefChainView {
                vendors: s.vendors.insert(
                    vendor@,
                    Vendor { status: VendorStatus::Suspended, ..s.vendors[vendor@] },
                ),
                events: s.events.push(Event::VendorSuspended { vendor }),
                ..s
            })
        },
        s.admin is None ==> {
            &&& s.approve_vendor(caller, vendor) == (s, Err::<(), Error>(Error::NotInitialized))
            &&& s.suspend_vendor(caller, vendor) == (s, Err::<(), Error>(Error::NotInitialized))
        },
        s.admin matches Some(a) && a@ != caller@ ==> {
            &&& s.approve_vendor(caller, vendor) == (s, Err::<(), Error>(Error::Unauthorized))
            &&& s.suspend_vendor(caller, vendor) == (s, Err::<(), Error>(Error::Unauthorized))
        },
        s.admin matches Some(a) && a@ == caller@ && !s.vendors.contains_key(vendor@) ==> {
            &&& s.approve_vendor(caller, vendor) == (s, Err::<(), Error>(Error::VendorNotFound))
            &&& s.suspend_vendor(caller, vendor) == (s, Err::<(), Error>(Error::VendorNotFound))
        },
{
}

/// Issuing a voucher succeeds exactly when a verifier issues a positive,
/// unexpired amount to a stored, `Verified` beneficiary of an active
/// disaster; the voucher of that beneficiary's wallet for the category then
/// grows by the amount and expires at the later of the two expiries, and
/// nothing else but the event log changes. Refusals come in this order:
/// `Unauthorized`, `InvalidAmount`, `ExpiredVoucher`, `BeneficiaryNotFound`,
/// `BeneficiaryNotVerified` (for a `Pending` or `Rejected` beneficiary),
/// `DisasterNotFound`, `DisasterNotActive`.
pub proof fn law_issue_voucher_behaviour(
    s: ReliefChainView,
    verifier: Address,
    beneficiary_id: u64,
    category: Symbol,
    amount: i128,
    expiry: u64,
    now: u64,
)
    ensures
        ({
            let (t, r) = s.issue_voucher(verifier, beneficiary_id, category, amount, expiry, now);
            let is_verifier = s.verifiers.contains_key(verifier@) && s.verifiers[verifier@];
            let stored = s.beneficiaries.contains_key(beneficiary_id);
            let ben = s.beneficiaries[beneficiary_id];
            let verified = stored && ben.status == BeneficiaryStatus::Verified;
            let exists = s.disasters.contains_key(ben.disaster_id);
            let active = exists && s.disasters[ben.disaster_id].status == DisasterStatus::Active;
            let key = (ben.disaster_id, ben.wallet@, category@);
            let before_ok = is_verifier && amount > 0 && expiry > now;
            &&& (r is Ok) == (before_ok && verified && active)
            &&& r is Ok ==> {
                &&& t == (ReliefChainView {
                    vouchers: t.vouchers,
                    events: s.events.push(
                        Event::VoucherIssued {
                            disaster_id: ben.disaster_id,
                            wallet: ben.wallet,
                            category,
                            amount,
                        },
                    ),
                    ..s
                })
                &&& t.vouchers.dom() == s.vouchers.dom().insert(key)
                &&& forall|k: (u64, Seq<char>, Seq<char>)|
                    k != key && #[trigger] s.vouchers.contains_key(k) ==> t.vouchers[k] == s.vouchers[k]
                &&& s.vouchers.contains_key(key) ==> {
                    &&& (s.vouchers[key].amount + amount <= i128::MAX ==> t.vouchers[key].amount
                        == s.vouchers[key].amount + amount)
                    &&& t.vouchers[key].expiry == if expiry > s.vouchers[key].expiry {
                        expiry
                    } else {
                        s.vouchers[key].expiry
                    }
                }
                &&& !s.vouchers.contains_key(key) ==> t.vouchers[key] == VoucherBalance {
                    amount,
                    expiry,
                }
            }
            &&& !is_verifier ==> (t, r) == (s, Err::<(), Error>(Error::Unauthorized))
            &&& is_verifier && amount <= 0 ==> (t, r) == (s, Err::<(), Error>(Error::InvalidAmount))
            &&& is_verifier && amount > 0 && expiry <= now ==> (t, r) == (
                s,
                Err::<(), Error>(Error::ExpiredVoucher),
            )
            &&& before_ok && !stored ==> (t, r) == (s, Err::<(), Error>(Error::BeneficiaryNotFound))
            &&& before_ok && stored && !verified ==> (t, r) == (
                s,
                Err::<(), Error>(Error::BeneficiaryNotVerified),
            )
            &&& before_ok && verified && !exists ==> (t, r) == (
                s,
                Err::<(), Error>(Error::DisasterNotFound),
            )
            &&& before_ok && verified && exists && !active ==> (t, r) == (
                s,
                Err::<(), Error>(Error::DisasterNotActive),
            )
        }),
{
}

/// Depositing succeeds exactly when the admin deposits a positive amount for
/// an active disaster, whose vault then grows by that amount. Refusals come
/// in this order: `NotInitialized`, `Unauthorized`, `InvalidAmount`,
/// `DisasterNotFound`, `DisasterNotActive`.
pub proof fn law_deposit_behaviour(s: ReliefChainView, caller: Address, disaster_id: u64, amount: i128)
    ensures
        ({
            let (t, r) = s.deposit_simulated(caller, disaster_id, amount);
            let is_admin = s.admin matches Some(a) && a@ == caller@;
            let exists = s.disasters.contains_key(disaster_id);
            let active = exists && s.disasters[disaster_id].status == DisasterStatus::Active;
            let before = if s.vaults.contains_key(disaster_id) {
                s.vaults[disaster_id] as int
            } else {
                0
            };
            &&& (r is Ok) == (is_admin && amount > 0 && active)
            &&& r is Ok && before + amount <= i128::MAX ==> t == (ReliefChainView {
                vaults: s.vaults.insert(disaster_id, (before + amount) as i128),
                events: s.events.push(Event::VaultDeposited { disaster_id, amount }),
                ..s
            }) && t.vaults[disaster_id] == before + amount
            &&& s.admin is None ==> (t, r) == (s, Err::<(), Error>(Error::NotInitialized))
            &&& (s.admin matches Some(a) && a@ != caller@) ==> (t, r) == (
                s,
                Err::<(), Error>(Error::Unauthorized),
            )
            &&& is_admin && amount <= 0 ==> (t, r) == (s, Err::<(), Error>(Error::InvalidAmount))
            &&& is_admin && amount > 0 && !exists ==> (t, r) == (
                s,
                Err::<(), Error>(Error::DisasterNotFound),
            )
            &&& is_admin && amount > 0 && exists && !active ==> (t, r) == (
                s,
                Err::<(), Error>(Error::DisasterNotActive),
            )
        }),
{
}

/// Redeeming succeeds exactly when, with positive amounts, an active vendor
/// of the voucher's category redeems from the stored voucher of a verified
/// beneficiary of an active disaster, the voucher is unexpired and covers
/// the redeemed amount, and the vault covers the payout; the vault is
/// compared with the payout only. The voucher then shrinks by the redeemed
/// amount, the vault by the payout, a paid redemption with the next id is
/// stored, and the spend, the release and the payment are published in that
/// order. Refusals come in this order: `InvalidAmount`, `DisasterNotFound`,
/// `DisasterNotActive`, `VendorNotFound`, `VendorNotActive`, `InvalidStatus`
/// (category), `BeneficiaryNotFound`, `BeneficiaryNotVerified`,
/// `ExpiredVoucher`, `InsufficientVoucher`, `InsufficientVaultBalance`.
pub proof fn law_redeem_behaviour(
    s: ReliefChainView,
    vendor: Address,
    beneficiary_wallet: Address,
    disaster_id: u64,
    category: Symbol,
    voucher_amount: i128,
    payout_amount: i128,
    now: u64,
)
    requires
        s.last_redemption_id < u64::MAX,
    ensures
        ({
            let (t, r) = s.redeem_voucher(
                vendor,
                beneficiary_wallet,
                disaster_id,
                category,
                voucher_amount,
                payout_amount,
                now,
            );
            let wallet_key = (disaster_id, beneficiary_wallet@);
            let key = (disaster_id, beneficiary_wallet@, category@);
            let ben_id = s.beneficiary_by_wallet[wallet_key];
            let id = (s.last_redemption_id + 1) as u64;
            let positive = voucher_amount > 0 && payout_amount > 0;
            let exists = s.disasters.contains_key(disaster_id);
            let active = exists && s.disasters[disaster_id].status == DisasterStatus::Active;
            let vendor_stored = s.vendors.contains_key(vendor@);
            let vendor_active = vendor_stored && s.vendors[vendor@].status == VendorStatus::Active;
            let same_category = s.vendors[vendor@].category@ == category@;
            let found = s.beneficiary_by_wallet.contains_key(wallet_key) && s.beneficiaries.contains_key(
                ben_id,
            );
            let verified = found && s.beneficiaries[ben_id].status == BeneficiaryStatus::Verified;
            let unexpired = s.vouchers.contains_key(key) && s.vouchers[key].expiry > now;
            let covered = s.vouchers[key].amount >= voucher_amount;
            let funded = s.vaults.contains_key(disaster_id) && s.vaults[disaster_id] >= payout_amount;
            let up_to_vendor = positive && active && vendor_active && same_category;
            let allowed = up_to_vendor && verified && unexpired && covered && funded;
            &&& (r is Ok) == allowed
            &&& allowed ==> {
                &&& r == Ok::<u64, Error>(id)
                &&& t == (ReliefChainView {
                    vouchers: s.vouchers.insert(
                        key,
                        VoucherBalance {
                            amount: (s.vouchers[key].amount - voucher_amount) as i128,
                            expiry: s.vouchers[key].expiry,
                        },
                    ),
                    vaults: s.vaults.insert(
                        disaster_id,
                        (s.vaults[disaster_id] - payout_amount) as i128,
                    ),
                    last_redemption_id: id,
                    redemptions: s.redemptions.insert(
                        id,
                        Redemption {
                            id,
                            disaster_id,
                            vendor,
                            beneficiary: s.beneficiaries[ben_id].wallet,
                            category,
                            voucher_amount,
                            payout_amount,
                            status: RedemptionStatus::Paid,
                            created_at: now,
                        },
                    ),
                    events: s.events.push(
                        Event::VoucherSpent {
                            disaster_id,
                            beneficiary: beneficiary_wallet,
                            vendor,
                            category,
                            amount: voucher_amount,
                        },
                    ).push(Event::VaultReleased { disaster_id, vendor, amount: payout_amount }).push(
                        Event::RedemptionPaid {
                            disaster_id,
                            redemption_id: id,
                            vendor,
                            beneficiary: s.beneficiaries[ben_id].wallet,
                            payout_amount,
                        },
                    ),
                    ..s
                })
                &&& t.vouchers[key].amount == s.vouchers[key].amount - voucher_amount
                &&& t.vaults[disaster_id] == s.vaults[disaster_id] - payout_amount
            }
            &&& !positive ==> (t, r) == (s, Err::<u64, Error>(Error::InvalidAmount))
            &&& positive && !exists ==> (t, r) == (s, Err::<u64, Error>(Error::DisasterNotFound))
            &&& positive && exists && !active ==> (t, r) == (
                s,
                Err::<u64, Error>(Error::DisasterNotActive),
            )
            &&& positive && active && !vendor_stored ==> (t, r) == (
                s,
                Err::<u64, Error>(Error::VendorNotFound),
            )
            &&& positive && active && vendor_stored && !vendor_active ==> (t, r) == (
                s,
                Err::<u64, Error>(Error::VendorNotActive),
            )
            &&& positive && active && vendor_active && !same_category ==> (t, r) == (
                s,
                Err::<u64, Error>(Error::InvalidStatus),
            )
            &&& up_to_vendor && !found ==> (t, r) == (s, Err::<u64, Error>(Error::BeneficiaryNotFound))
            &&& up_to_vendor && found && !verified ==> (t, r) == (
                s,
                Err::<u64, Error>(Error::BeneficiaryNotVerified),
            )
            &&& up_to_vendor && verified && !unexpired ==> (t, r) == (
                s,
                Err::<u64, Error>(Error::ExpiredVoucher),
            )
            &&& up_to_vendor && verified && unexpired && !covered ==> (t, r) == (
                s,
                Err::<u64, Error>(Error::InsufficientVoucher),
            )
            &&& up_to_vendor && verified && unexpired && covered && !funded ==> (t, r) == (
                s,
                Err::<u64, Error>(Error::InsufficientVaultBalance),
            )
        }),
{
}

} // verus!
