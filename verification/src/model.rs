//! The mathematical model of the relief ledger: its state as maps, and what
//! each request does to it.

use vstd::prelude::*;
use crate::types::{
    Address, Beneficiary, BeneficiaryStatus, DisasterEvent, DisasterStatus, Error, Event, Redemption,
    RedemptionStatus, Request, Symbol, Vendor, VendorStatus, VoucherBalance,
};

verus! {

/// The whole ledger state, as maps keyed by plain values.
pub struct ReliefChainView {
    /// The admin, once the ledger is initialized.
    pub admin: Option<Address>,
    /// Verifier flags, by wallet.
    pub verifiers: Map<Seq<char>, bool>,
    /// The last disaster id handed out (0 before the first).
    pub last_disaster_id: u64,
    /// The last beneficiary id handed out (0 before the first).
    pub last_beneficiary_id: u64,
    /// The last redemption id handed out (0 before the first).
    pub last_redemption_id: u64,
    pub disasters: Map<u64, DisasterEvent>,
    pub beneficiaries: Map<u64, Beneficiary>,
    /// Beneficiary id, by disaster and wallet.
    pub beneficiary_by_wallet: Map<(u64, Seq<char>), u64>,
    /// Vendors, by wallet.
    pub vendors: Map<Seq<char>, Vendor>,
    /// Vouchers, by disaster, beneficiary wallet and category.
    pub vouchers: Map<(u64, Seq<char>, Seq<char>), VoucherBalance>,
    /// Simulated vault balance, by disaster.
    pub vaults: Map<u64, i128>,
    pub redemptions: Map<u64, Redemption>,
    /// Every event published so far, oldest first.
    pub events: Seq<Event>,
}

/// The outcome of a request that returns nothing, as the outcome of a
/// request that returns an id: `Ok(0)` for success.
pub open spec fn with_no_id(outcome: (ReliefChainView, Result<(), Error>)) -> (ReliefChainView, Result<u64, Error>) {
    (
        outcome.0,
        match outcome.1 {
            Ok(_) => Ok(0),
            Err(e) => Err(e),
        },
    )
}

/// The larger of two timestamps.
pub open spec fn later(a: u64, b: u64) -> u64 {
    if a > b {
        a
    } else {
        b
    }
}

impl ReliefChainView {
    /// The state of a fresh ledger.
    pub open spec fn initial() -> Self {
        ReliefChainView {
            admin: None,
            verifiers: Map::empty(),
            last_disaster_id: 0,
            last_beneficiary_id: 0,
            last_redemption_id: 0,
            disasters: Map::empty(),
            beneficiaries: Map::empty(),
            beneficiary_by_wallet: Map::empty(),
            vendors: Map::empty(),
            vouchers: Map::empty(),
            vaults: Map::empty(),
            redemptions: Map::empty(),
            events: Seq::empty(),
        }
    }

    /// What every reachable state satisfies.
    pub open spec fn consistent(self) -> bool {
        &&& forall|d: u64| #[trigger]
            self.disasters.contains_key(d) ==> 1 <= d <= self.last_disaster_id && self.disasters[d].id
                == d
        &&& forall|b: u64| #[trigger]
            self.beneficiaries.contains_key(b) ==> {
                let ben = self.beneficiaries[b];
                &&& 1 <= b <= self.last_beneficiary_id
                &&& ben.id == b
                &&& self.disasters.contains_key(ben.disaster_id)
                &&& self.beneficiary_by_wallet.contains_key((ben.disaster_id, ben.wallet@))
                &&& self.beneficiary_by_wallet[(ben.disaster_id, ben.wallet@)] == b
            }
        &&& forall|k: (u64, Seq<char>)| #[trigger]
            self.beneficiary_by_wallet.contains_key(k) ==> {
                let b = self.beneficiary_by_wallet[k];
                &&& self.beneficiaries.contains_key(b)
                &&& self.beneficiaries[b].disaster_id == k.0
                &&& self.beneficiaries[b].wallet@ == k.1
            }
        &&& forall|v: Seq<char>| #[trigger]
            self.vendors.contains_key(v) ==> self.vendors[v].wallet@ == v
        &&& forall|k: (u64, Seq<char>, Seq<char>)| #[trigger]
            self.vouchers.contains_key(k) ==> self.vouchers[k].amount >= 0
                && self.beneficiary_by_wallet.contains_key((k.0, k.1))
        &&& forall|d: u64| #[trigger]
            self.vaults.contains_key(d) ==> self.vaults[d] >= 0 && self.disasters.contains_key(d)
        &&& forall|r: u64| #[trigger]
            self.redemptions.contains_key(r) ==> 1 <= r <= self.last_redemption_id
                && self.redemptions[r].id == r
    }

    // ------------------------------------------------------------
    // Reads
    // ------------------------------------------------------------

    /// Why `caller` may not act as admin, if it may not.
    pub open spec fn admin_refusal(self, caller: Seq<char>) -> Option<Error> {
        match self.admin {
            None => Some(Error::NotInitialized),
            Some(a) => if a@ == caller {
                None
            } else {
                Some(Error::Unauthorized)
            },
        }
    }

    /// Whether `wallet` currently holds the verifier role.
    pub open spec fn is_verifier(self, wallet: Seq<char>) -> bool {
        self.verifiers.contains_key(wallet) && self.verifiers[wallet]
    }

    /// Why `caller` may not act as verifier, if it may not.
    pub open spec fn verifier_refusal(self, caller: Seq<char>) -> Option<Error> {
        if self.is_verifier(caller) {
            None
        } else {
            Some(Error::Unauthorized)
        }
    }

    /// Why disaster `id` may not be used as an active disaster, if it may not.
    pub open spec fn active_disaster_refusal(self, id: u64) -> Option<Error> {
        if !self.disasters.contains_key(id) {
            Some(Error::DisasterNotFound)
        } else if self.disasters[id].status != DisasterStatus::Active {
            Some(Error::DisasterNotActive)
        } else {
            None
        }
    }

    /// The beneficiary registered with `wallet` for `disaster_id`.
    pub open spec fn beneficiary_by_wallet_lookup(self, disaster_id: u64, wallet: Seq<char>) -> Result<
        Beneficiary,
        Error,
    > {
        if !self.beneficiary_by_wallet.contains_key((disaster_id, wallet)) {
            Err(Error::BeneficiaryNotFound)
        } else {
            let id = self.beneficiary_by_wallet[(disaster_id, wallet)];
            if !self.beneficiaries.contains_key(id) {
                Err(Error::BeneficiaryNotFound)
            } else {
                Ok(self.beneficiaries[id])
            }
        }
    }

    /// The vault balance of a disaster; 0 where nothing was deposited.
    pub open spec fn vault_balance(self, disaster_id: u64) -> i128 {
        if self.vaults.contains_key(disaster_id) {
            self.vaults[disaster_id]
        } else {
            0
        }
    }

    /// The stored voucher; amount 0 and expiry 0 where none was issued.
    pub open spec fn voucher_record(self, disaster_id: u64, wallet: Seq<char>, category: Seq<char>) -> VoucherBalance {
        if self.vouchers.contains_key((disaster_id, wallet, category)) {
            self.vouchers[(disaster_id, wallet, category)]
        } else {
            VoucherBalance { amount: 0, expiry: 0 }
        }
    }

    /// What a voucher is worth at time `now`: nothing once expired.
    pub open spec fn voucher_balance(
        self,
        disaster_id: u64,
        wallet: Seq<char>,
        category: Seq<char>,
        now: u64,
    ) -> i128 {
        let record = self.voucher_record(disaster_id, wallet, category);
        if record.expiry <= now {
            0
        } else {
            record.amount
        }
    }

    // ------------------------------------------------------------
    // Initialization & roles
    // ------------------------------------------------------------

    pub open spec fn initialize(self, admin: Address) -> (Self, Result<(), Error>) {
        if self.admin is Some {
            (self, Err(Error::AlreadyInitialized))
        } else {
            (
                Self {
                    admin: Some(admin),
                    events: self.events.push(Event::Initialized { admin }),
                    ..self
                },
                Ok(()),
            )
        }
    }

    /// Sets the verifier flag of `verifier` to `flag`, publishing `event`.
    pub open spec fn set_verifier(self, admin: Address, verifier: Address, flag: bool, event: Event) -> (
        Self,
        Result<(), Error>,
    ) {
        match self.admin_refusal(admin@) {
            Some(e) => (self, Err(e)),
            None => (
                Self {
                    verifiers: self.verifiers.insert(verifier@, flag),
                    events: self.events.push(event),
                    ..self
                },
                Ok(()),
            ),
        }
    }

    pub open spec fn add_verifier(self, admin: Address, verifier: Address) -> (Self, Result<(), Error>) {
        self.set_verifier(admin, verifier, true, Event::VerifierAdded { verifier })
    }

    pub open spec fn remove_verifier(self, admin: Address, verifier: Address) -> (
        Self,
        Result<(), Error>,
    ) {
        self.set_verifier(admin, verifier, false, Event::VerifierRemoved { verifier })
    }

    // ------------------------------------------------------------
    // Disasters
    // ------------------------------------------------------------

    pub open spec fn create_disaster(
        self,
        admin: Address,
        name: String,
        location_hash: [u8; 32],
        disaster_type: Symbol,
        start_time: u64,
    ) -> (Self, Result<u64, Error>) {
        match self.admin_refusal(admin@) {
            Some(e) => (self, Err(e)),
            None => {
                let id = (self.last_disaster_id + 1) as u64;
                let disaster = DisasterEvent {
                    id,
                    name,
                    location_hash,
                    disaster_type,
                    start_time,
                    status: DisasterStatus::Draft,
                };
                (
                    Self {
                        last_disaster_id: id,
                        disasters: self.disasters.insert(id, disaster),
                        events: self.events.push(Event::DisasterCreated { disaster_id: id }),
                        ..self
                    },
                    Ok(id),
                )
            },
        }
    }

    /// Why the admin may not change the status of disaster `id`, if it may not.
    pub open spec fn disaster_update_refusal(self, admin: Address, id: u64) -> Option<Error> {
        if self.admin_refusal(admin@) is Some {
            self.admin_refusal(admin@)
        } else if !self.disasters.contains_key(id) {
            Some(Error::DisasterNotFound)
        } else {
            None
        }
    }

    /// Sets the status of disaster `id`, publishing `event`.
    pub open spec fn set_disaster_status(
        self,
        admin: Address,
        id: u64,
        status: DisasterStatus,
        event: Event,
    ) -> (Self, Result<(), Error>) {
        match self.disaster_update_refusal(admin, id) {
            Some(e) => (self, Err(e)),
            None => (
                Self {
                    disasters: self.disasters.insert(id, DisasterEvent { status, ..self.disasters[id] }),
                    events: self.events.push(event),
                    ..self
                },
                Ok(()),
            ),
        }
    }

    pub open spec fn activate_disaster(self, admin: Address, id: u64) -> (Self, Result<(), Error>) {
        self.set_disaster_status(
            admin,
            id,
            DisasterStatus::Active,
            Event::DisasterActivated { disaster_id: id },
        )
    }

    pub open spec fn close_disaster(self, admin: Address, id: u64) -> (Self, Result<(), Error>) {
        self.set_disaster_status(
            admin,
            id,
            DisasterStatus::Closed,
            Event::DisasterClosed { disaster_id: id },
        )
    }

    pub open spec fn get_disaster(self, id: u64) -> Result<DisasterEvent, Error> {
        if self.disasters.contains_key(id) {
            Ok(self.disasters[id])
        } else {
            Err(Error::DisasterNotFound)
        }
    }

    // ------------------------------------------------------------
    // Beneficiaries
    // ------------------------------------------------------------

    /// Why `verifier` may not register `wallet` for `disaster_id`, if it may not.
    pub open spec fn register_beneficiary_refusal(
        self,
        verifier: Address,
        disaster_id: u64,
        wallet: Address,
    ) -> Option<Error> {
        if self.verifier_refusal(verifier@) is Some {
            self.verifier_refusal(verifier@)
        } else if self.active_disaster_refusal(disaster_id) is Some {
            self.active_disaster_refusal(disaster_id)
        } else if self.beneficiary_by_wallet.contains_key((disaster_id, wallet@)) {
            Some(Error::BeneficiaryAlreadyRegistered)
        } else {
            None
        }
    }

    pub open spec fn register_beneficiary(
        self,
        verifier: Address,
        disaster_id: u64,
        wallet: Address,
        credential_hash: [u8; 32],
    ) -> (Self, Result<u64, Error>) {
        match self.register_beneficiary_refusal(verifier, disaster_id, wallet) {
            Some(e) => (self, Err(e)),
            None => {
                let id = (self.last_beneficiary_id + 1) as u64;
                let beneficiary = Beneficiary {
                    id,
                    wallet,
                    disaster_id,
                    credential_hash,
                    status: BeneficiaryStatus::Pending,
                };
                (
                    Self {
                        last_beneficiary_id: id,
                        beneficiaries: self.beneficiaries.insert(id, beneficiary),
                        beneficiary_by_wallet: self.beneficiary_by_wallet.insert(
                            (disaster_id, wallet@),
                            id,
                        ),
                        events: self.events.push(
                            Event::BeneficiaryRegistered { disaster_id, beneficiary_id: id, wallet },
                        ),
                        ..self
                    },
                    Ok(id),
                )
            },
        }
    }

    /// Why `verifier` may not decide on beneficiary `id`, if it may not.
    pub open spec fn review_refusal(self, verifier: Address, id: u64) -> Option<Error> {
        if self.verifier_refusal(verifier@) is Some {
            self.verifier_refusal(verifier@)
        } else if !self.beneficiaries.contains_key(id) {
            Some(Error::BeneficiaryNotFound)
        } else if self.beneficiaries[id].status != BeneficiaryStatus::Pending {
            Some(Error::InvalidStatus)
        } else {
            None
        }
    }

    /// Moves pending beneficiary `id` to `status`, publishing `event`.
    pub open spec fn review_beneficiary(
        self,
        verifier: Address,
        id: u64,
        status: BeneficiaryStatus,
        event: Event,
    ) -> (Self, Result<(), Error>) {
        match self.review_refusal(verifier, id) {
            Some(e) => (self, Err(e)),
            None => (
                Self {
                    beneficiaries: self.beneficiaries.insert(
                        id,
                        Beneficiary { status, ..self.beneficiaries[id] },
                    ),
                    events: self.events.push(event),
                    ..self
                },
                Ok(()),
            ),
        }
    }

    pub open spec fn verify_beneficiary(self, verifier: Address, id: u64) -> (Self, Result<(), Error>) {
        self.review_beneficiary(
            verifier,
            id,
            BeneficiaryStatus::Verified,
            Event::BeneficiaryVerified { beneficiary_id: id },
        )
    }

    pub open spec fn reject_beneficiary(self, verifier: Address, id: u64) -> (Self, Result<(), Error>) {
        self.review_beneficiary(
            verifier,
            id,
            BeneficiaryStatus::Rejected,
            Event::BeneficiaryRejected { beneficiary_id: id },
        )
    }

    pub open spec fn get_beneficiary(self, id: u64) -> Result<Beneficiary, Error> {
        if self.beneficiaries.contains_key(id) {
            Ok(self.beneficiaries[id])
        } else {
            Err(Error::BeneficiaryNotFound)
        }
    }

    // ------------------------------------------------------------
    // Vendors
    // ------------------------------------------------------------

    pub open spec fn register_vendor(self, vendor: Address, metadata_hash: [u8; 32], category: Symbol) -> (
        Self,
        Result<(), Error>,
    ) {
        if self.vendors.contains_key(vendor@) {
            (self, Err(Error::InvalidStatus))
        } else {
            let data = Vendor { wallet: vendor, metadata_hash, category, status: VendorStatus::Pending };
            (
                Self {
                    vendors: self.vendors.insert(vendor@, data),
                    events: self.events.push(Event::VendorRegistered { vendor }),
                    ..self
                },
                Ok(()),
            )
        }
    }

    /// Why the admin may not change the status of `vendor`, if it may not.
    pub open spec fn vendor_update_refusal(self, admin: Address, vendor: Address) -> Option<Error> {
        if self.admin_refusal(admin@) is Some {
            self.admin_refusal(admin@)
        } else if !self.vendors.contains_key(vendor@) {
            Some(Error::VendorNotFound)
        } else {
            None
        }
    }

    /// Sets the status of `vendor`, publishing `event`.
    pub open spec fn set_vendor_status(
        self,
        admin: Address,
        vendor: Address,
        status: VendorStatus,
        event: Event,
    ) -> (Self, Result<(), Error>) {
        match self.vendor_update_refusal(admin, vendor) {
            Some(e) => (self, Err(e)),
            None => (
                Self {
                    vendors: self.vendors.insert(vendor@, Vendor { status, ..self.vendors[vendor@] }),
                    events: self.events.push(event),
                    ..self
                },
                Ok(()),
            ),
        }
    }

    pub open spec fn approve_vendor(self, admin: Address, vendor: Address) -> (Self, Result<(), Error>) {
        self.set_vendor_status(admin, vendor, VendorStatus::Active, Event::VendorApproved { vendor })
    }

    pub open spec fn suspend_vendor(self, admin: Address, vendor: Address) -> (Self, Result<(), Error>) {
        self.set_vendor_status(admin, vendor, VendorStatus::Suspended, Event::VendorSuspended { vendor })
    }

    pub open spec fn get_vendor(self, vendor: Seq<char>) -> Result<Vendor, Error> {
        if self.vendors.contains_key(vendor) {
            Ok(self.vendors[vendor])
        } else {
            Err(Error::VendorNotFound)
        }
    }

    // ------------------------------------------------------------
    // Vouchers
    // ------------------------------------------------------------

    /// Why `verifier` may not issue this voucher at time `now`, if it may not.
    pub open spec fn issue_voucher_refusal(
        self,
        verifier: Address,
        beneficiary_id: u64,
        amount: i128,
        expiry: u64,
        now: u64,
    ) -> Option<Error> {
        if self.verifier_refusal(verifier@) is Some {
            self.verifier_refusal(verifier@)
        } else if amount <= 0 {
            Some(Error::InvalidAmount)
        } else if expiry <= now {
            Some(Error::ExpiredVoucher)
        } else if !self.beneficiaries.contains_key(beneficiary_id) {
            Some(Error::BeneficiaryNotFound)
        } else if self.beneficiaries[beneficiary_id].status != BeneficiaryStatus::Verified {
            Some(Error::BeneficiaryNotVerified)
        } else {
            self.active_disaster_refusal(self.beneficiaries[beneficiary_id].disaster_id)
        }
    }

    /// The voucher after `amount` more, expiring at `expiry` at the earliest,
    /// is added to the voucher stored under `key`, if any.
    pub open spec fn topped_up(
        self,
        key: (u64, Seq<char>, Seq<char>),
        amount: i128,
        expiry: u64,
    ) -> VoucherBalance {
        if self.vouchers.contains_key(key) {
            let current = self.vouchers[key];
            VoucherBalance {
                amount: (current.amount + amount) as i128,
                expiry: later(expiry, current.expiry),
            }
        } else {
            VoucherBalance { amount, expiry }
        }
    }

    pub open spec fn issue_voucher(
        self,
        verifier: Address,
        beneficiary_id: u64,
        category: Symbol,
        amount: i128,
        expiry: u64,
        now: u64,
    ) -> (Self, Result<(), Error>) {
        match self.issue_voucher_refusal(verifier, beneficiary_id, amount, expiry, now) {
            Some(e) => (self, Err(e)),
            None => {
                let ben = self.beneficiaries[beneficiary_id];
                let key = (ben.disaster_id, ben.wallet@, category@);
                (
                    Self {
                        vouchers: self.vouchers.insert(key, self.topped_up(key, amount, expiry)),
                        events: self.events.push(
                            Event::VoucherIssued {
                                disaster_id: ben.disaster_id,
                                wallet: ben.wallet,
                                category,
                                amount,
                            },
                        ),
                        ..self
                    },
                    Ok(()),
                )
            },
        }
    }

    // ------------------------------------------------------------
    // Vault
    // ------------------------------------------------------------

    /// Why the admin may not deposit `amount` for `disaster_id`, if it may not.
    pub open spec fn deposit_refusal(self, admin: Address, disaster_id: u64, amount: i128) -> Option<
        Error,
    > {
        if self.admin_refusal(admin@) is Some {
            self.admin_refusal(admin@)
        } else if amount <= 0 {
            Some(Error::InvalidAmount)
        } else {
            self.active_disaster_refusal(disaster_id)
        }
    }

    pub open spec fn deposit_simulated(self, admin: Address, disaster_id: u64, amount: i128) -> (
        Self,
        Result<(), Error>,
    ) {
        match self.deposit_refusal(admin, disaster_id, amount) {
            Some(e) => (self, Err(e)),
            None => (
                Self {
                    vaults: self.vaults.insert(
                        disaster_id,
                        (self.vault_balance(disaster_id) + amount) as i128,
                    ),
                    events: self.events.push(Event::VaultDeposited { disaster_id, amount }),
                    ..self
                },
                Ok(()),
            ),
        }
    }

    // ------------------------------------------------------------
    // Redemption
    // ------------------------------------------------------------

    /// Why `vendor` may not redeem this voucher at time `now`, if it may not.
    pub open spec fn redeem_refusal(
        self,
        vendor: Address,
        beneficiary_wallet: Address,
        disaster_id: u64,
        category: Symbol,
        voucher_amount: i128,
        payout_amount: i128,
        now: u64,
    ) -> Option<Error> {
        let record = self.voucher_record(disaster_id, beneficiary_wallet@, category@);
        if voucher_amount <= 0 || payout_amount <= 0 {
            Some(Error::InvalidAmount)
        } else if self.active_disaster_refusal(disaster_id) is Some {
            self.active_disaster_refusal(disaster_id)
        } else if !self.vendors.contains_key(vendor@) {
            Some(Error::VendorNotFound)
        } else if self.vendors[vendor@].status != VendorStatus::Active {
            Some(Error::VendorNotActive)
        } else if self.vendors[vendor@].category@ != category@ {
            Some(Error::InvalidStatus)
        } else if self.beneficiary_by_wallet_lookup(disaster_id, beneficiary_wallet@) is Err {
            Some(Error::BeneficiaryNotFound)
        } else if self.beneficiary_by_wallet_lookup(disaster_id, beneficiary_wallet@)->Ok_0.status
            != BeneficiaryStatus::Verified {
            Some(Error::BeneficiaryNotVerified)
        } else if record.expiry <= now {
            Some(Error::ExpiredVoucher)
        } else if record.amount < voucher_amount {
            Some(Error::InsufficientVoucher)
        } else if self.vault_balance(disaster_id) < payout_amount {
            Some(Error::InsufficientVaultBalance)
        } else {
            None
        }
    }

    pub open spec fn redeem_voucher(
        self,
        vendor: Address,
        beneficiary_wallet: Address,
        disaster_id: u64,
        category: Symbol,
        voucher_amount: i128,
        payout_amount: i128,
        now: u64,
    ) -> (Self, Result<u64, Error>) {
        match self.redeem_refusal(
            vendor,
            beneficiary_wallet,
            disaster_id,
            category,
            voucher_amount,
            payout_amount,
            now,
        ) {
            Some(e) => (self, Err(e)),
            None => {
                let ben = self.beneficiary_by_wallet_lookup(disaster_id, beneficiary_wallet@)->Ok_0;
                let key = (disaster_id, beneficiary_wallet@, category@);
                let record = self.voucher_record(disaster_id, beneficiary_wallet@, category@);
                let id = (self.last_redemption_id + 1) as u64;
                let redemption = Redemption {
                    id,
                    disaster_id,
                    vendor,
                    beneficiary: ben.wallet,
                    category,
                    voucher_amount,
                    payout_amount,
                    status: RedemptionStatus::Paid,
                    created_at: now,
                };
                (
                    Self {
                        vouchers: self.vouchers.insert(
                            key,
                            VoucherBalance {
                                amount: (record.amount - voucher_amount) as i128,
                                expiry: record.expiry,
                            },
                        ),
                        vaults: self.vaults.insert(
                            disaster_id,
                            (self.vault_balance(disaster_id) - payout_amount) as i128,
                        ),
                        last_redemption_id: id,
                        redemptions: self.redemptions.insert(id, redemption),
                        events: self.events.push(
                            Event::VoucherSpent {
                                disaster_id,
                                beneficiary: beneficiary_wallet,
                                vendor,
                                category,
                                amount: voucher_amount,
                            },
                        ).push(Event::VaultReleased { disaster_id, vendor, amount: payout_amount }).push(
                            Event::RedemptionPaid {
                                disaster_id,
                                redemption_id: id,
                                vendor,
                                beneficiary: ben.wallet,
                                payout_amount,
                            },
                        ),
                        ..self
                    },
                    Ok(id),
                )
            },
        }
    }

    pub open spec fn get_redemption(self, id: u64) -> Result<Redemption, Error> {
        if self.redemptions.contains_key(id) {
            Ok(self.redemptions[id])
        } else {
            Err(Error::RedemptionNotFound)
        }
    }

    // ------------------------------------------------------------
    // Any request
    // ------------------------------------------------------------

    /// What `request` does to the ledger, and its outcome: the id it
    /// created, `Ok(0)` where it creates none, or why it was refused.
    pub open spec fn step(self, request: Request) -> (Self, Result<u64, Error>) {
        match request {
            Request::Initialize { admin } => with_no_id(self.initialize(admin)),
            Request::AddVerifier { admin, verifier } => with_no_id(self.add_verifier(admin, verifier)),
            Request::RemoveVerifier { admin, verifier } => with_no_id(
                self.remove_verifier(admin, verifier),
            ),
            Request::CreateDisaster { admin, name, location_hash, disaster_type, start_time } => self.create_disaster(
                admin,
                name,
                location_hash,
                disaster_type,
                start_time,
            ),
            Request::ActivateDisaster { admin, disaster_id } => with_no_id(
                self.activate_disaster(admin, disaster_id),
            ),
            Request::CloseDisaster { admin, disaster_id } => with_no_id(
                self.close_disaster(admin, disaster_id),
            ),
            Request::RegisterBeneficiary { verifier, disaster_id, wallet, credential_hash } => self.register_beneficiary(
                verifier,
                disaster_id,
                wallet,
                credential_hash,
            ),
            Request::VerifyBeneficiary { verifier, beneficiary_id } => with_no_id(
                self.verify_beneficiary(verifier, beneficiary_id),
            ),
            Request::RejectBeneficiary { verifier, beneficiary_id } => with_no_id(
                self.reject_beneficiary(verifier, beneficiary_id),
            ),
            Request::RegisterVendor { vendor, metadata_hash, category } => with_no_id(
                self.register_vendor(vendor, metadata_hash, category),
            ),
            Request::ApproveVendor { admin, vendor } => with_no_id(self.approve_vendor(admin, vendor)),
            Request::SuspendVendor { admin, vendor } => with_no_id(self.suspend_vendor(admin, vendor)),
            Request::IssueVoucher { verifier, beneficiary_id, category, amount, expiry, now } => with_no_id(
                self.issue_voucher(verifier, beneficiary_id, category, amount, expiry, now),
            ),
            Request::DepositSimulated { admin, disaster_id, amount } => with_no_id(
                self.deposit_simulated(admin, disaster_id, amount),
            ),
            Request::RedeemVoucher {
                vendor,
                beneficiary_wallet,
                disaster_id,
                category,
                voucher_amount,
                payout_amount,
                now,
            } => self.redeem_voucher(
                vendor,
                beneficiary_wallet,
                disaster_id,
                category,
                voucher_amount,
                payout_amount,
                now,
            ),
        }
    }

    /// Whether `request` stays within the machine's integer ranges: an id
    /// counter or a balance that it would push past its type's range makes
    /// the request abort.
    pub open spec fn admissible(self, request: Request) -> bool {
        match request {
            Request::CreateDisaster { admin, .. } => self.admin_refusal(admin@) is None
                ==> self.last_disaster_id < u64::MAX,
            Request::RegisterBeneficiary { verifier, disaster_id, wallet, .. } => self.register_beneficiary_refusal(
                verifier,
                disaster_id,
                wallet,
            ) is None ==> self.last_beneficiary_id < u64::MAX,
            Request::IssueVoucher { verifier, beneficiary_id, category, amount, expiry, now } => self.issue_voucher_refusal(
                verifier,
                beneficiary_id,
                amount,
                expiry,
                now,
            ) is None ==> ({
                let ben = self.beneficiaries[beneficiary_id];
                self.voucher_record(ben.disaster_id, ben.wallet@, category@).amount + amount
                    <= i128::MAX
            }),
            Request::DepositSimulated { admin, disaster_id, amount } => self.deposit_refusal(
                admin,
                disaster_id,
                amount,
            ) is None ==> self.vault_balance(disaster_id) + amount <= i128::MAX,
            Request::RedeemVoucher {
                vendor,
                beneficiary_wallet,
                disaster_id,
                category,
                voucher_amount,
                payout_amount,
                now,
            } => self.redeem_refusal(
                vendor,
                beneficiary_wallet,
                disaster_id,
                category,
                voucher_amount,
                payout_amount,
                now,
            ) is None ==> self.last_redemption_id < u64::MAX,
            _ => true,
        }
    }
}

} // verus!
