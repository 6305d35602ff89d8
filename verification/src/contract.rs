//! The relief ledger itself: every entry point, checked against the model.

use vstd::prelude::*;
use crate::laws::law_step_keeps_consistency;
use crate::model::ReliefChainView;
use crate::table::{Table, VoucherKey, WalletKey};
use crate::types::{
    Address, Beneficiary, BeneficiaryStatus, DisasterEvent, DisasterStatus, Error, Event, Redemption,
    RedemptionStatus, Request, Symbol, Vendor, VendorStatus, VoucherBalance,
};

verus! {

/// The state of the relief ledger, with every entry point of the contract.
pub struct ReliefChain {
    admin: Option<Address>,
    verifiers: Table<Address, bool>,
    last_disaster_id: u64,
    last_beneficiary_id: u64,
    last_redemption_id: u64,
    disasters: Table<u64, DisasterEvent>,
    beneficiaries: Table<u64, Beneficiary>,
    beneficiary_by_wallet: Table<WalletKey, u64>,
    vendors: Table<Address, Vendor>,
    vouchers: Table<VoucherKey, VoucherBalance>,
    vaults: Table<u64, i128>,
    redemptions: Table<u64, Redemption>,
    events: Vec<Event>,
}

impl View for ReliefChain {
    type V = ReliefChainView;

    closed spec fn view(&self) -> ReliefChainView {
        ReliefChainView {
            admin: self.admin,
            verifiers: self.verifiers@,
            last_disaster_id: self.last_disaster_id,
            last_beneficiary_id: self.last_beneficiary_id,
            last_redemption_id: self.last_redemption_id,
            disasters: self.disasters@,
            beneficiaries: self.beneficiaries@,
            beneficiary_by_wallet: self.beneficiary_by_wallet@,
            vendors: self.vendors@,
            vouchers: self.vouchers@,
            vaults: self.vaults@,
            redemptions: self.redemptions@,
            events: self.events@,
        }
    }
}

impl ReliefChain {
    /// The tables are well formed and the state is consistent.
    pub closed spec fn inv(&self) -> bool {
        &&& self.verifiers.wf()
        &&& self.disasters.wf()
        &&& self.beneficiaries.wf()
        &&& self.beneficiary_by_wallet.wf()
        &&& self.vendors.wf()
        &&& self.vouchers.wf()
        &&& self.vaults.wf()
        &&& self.redemptions.wf()
        &&& self@.consistent()
    }

    /// A ledger that holds the invariant is consistent.
    pub proof fn lemma_inv_consistent(&self)
        requires
            self.inv(),
        ensures
            self@.consistent(),
    {
    }

    /// A fresh, uninitialized ledger.
    pub fn new() -> (r: ReliefChain)
        ensures
            r.inv(),
            r@ == ReliefChainView::initial(),
    {
        let r = ReliefChain {
            admin: None,
            verifiers: Table::new(),
            last_disaster_id: 0,
            last_beneficiary_id: 0,
            last_redemption_id: 0,
            disasters: Table::new(),
            beneficiaries: Table::new(),
            beneficiary_by_wallet: Table::new(),
            vendors: Table::new(),
            vouchers: Table::new(),
            vaults: Table::new(),
            redemptions: Table::new(),
            events: Vec::new(),
        };
        assert(r@.events =~= Seq::<Event>::empty());
        r
    }

    /// Every event published so far, oldest first.
    pub fn events(&self) -> (r: &Vec<Event>)
        ensures
            r@ == self@.events,
    {
        &self.events
    }

    /// The last disaster, beneficiary and redemption ids handed out.
    pub fn id_counters(&self) -> (r: (u64, u64, u64))
        ensures
            r == (self@.last_disaster_id, self@.last_beneficiary_id, self@.last_redemption_id),
    {
        (self.last_disaster_id, self.last_beneficiary_id, self.last_redemption_id)
    }

    // ------------------------------------------------------------
    // Internal helpers
    // ------------------------------------------------------------

    /// Where a request leaves the voucher and vault tables alone, their views
    /// are unchanged too.
    proof fn lemma_balances_untouched(&self, pre: &Self)
        requires
            self.vouchers == pre.vouchers,
            self.vaults == pre.vaults,
        ensures
            self@.vouchers == pre@.vouchers,
            self@.vaults == pre@.vaults,
    {
    }

    fn read_admin(&self) -> (r: Result<Address, Error>)
        ensures
            r == match self@.admin {
                Some(a) => Ok(a),
                None => Err::<Address, Error>(Error::NotInitialized),
            },
    {
        match &self.admin {
            Some(a) => Ok(a.clone()),
            None => Err(Error::NotInitialized),
        }
    }

    fn require_admin(&self, admin: &Address) -> (r: Result<(), Error>)
        ensures
            r == match self@.admin_refusal(admin@) {
                Some(e) => Err(e),
                None => Ok(()),
            },
    {
        let stored_admin = match self.read_admin() {
            Ok(a) => a,
            Err(e) => return Err(e),
        };
        if !stored_admin.same_as(admin) {
            return Err(Error::Unauthorized);
        }
        Ok(())
    }

    fn require_verifier(&self, verifier: &Address) -> (r: Result<(), Error>)
        requires
            self.inv(),
        ensures
            r == match self@.verifier_refusal(verifier@) {
                Some(e) => Err(e),
                None => Ok(()),
            },
    {
        let is_verifier = match self.verifiers.get(verifier) {
            Some(flag) => *flag,
            None => false,
        };
        if !is_verifier {
            return Err(Error::Unauthorized);
        }
        Ok(())
    }

    fn next_disaster_id(&mut self) -> (id: u64)
        requires
            old(self).inv(),
            old(self)@.last_disaster_id < u64::MAX,
        ensures
            final(self).inv(),
            id == old(self)@.last_disaster_id + 1,
            final(self)@ == (ReliefChainView { last_disaster_id: id, ..old(self)@ }),
    {
        let next = self.last_disaster_id + 1;
        self.last_disaster_id = next;
        next
    }

    fn next_beneficiary_id(&mut self) -> (id: u64)
        requires
            old(self).inv(),
            old(self)@.last_beneficiary_id < u64::MAX,
        ensures
            final(self).inv(),
            id == old(self)@.last_beneficiary_id + 1,
            final(self)@ == (ReliefChainView { last_beneficiary_id: id, ..old(self)@ }),
    {
        let next = self.last_beneficiary_id + 1;
        self.last_beneficiary_id = next;
        next
    }

    fn next_redemption_id(&mut self) -> (id: u64)
        requires
            old(self).inv(),
            old(self)@.last_redemption_id < u64::MAX,
        ensures
            final(self).inv(),
            id == old(self)@.last_redemption_id + 1,
            final(self)@ == (ReliefChainView { last_redemption_id: id, ..old(self)@ }),
    {
        let next = self.last_redemption_id + 1;
        self.last_redemption_id = next;
        next
    }

    fn require_disaster_exists(&self, disaster_id: u64) -> (r: Result<DisasterEvent, Error>)
        requires
            self.inv(),
        ensures
            r == self@.get_disaster(disaster_id),
    {
        match self.disasters.get(&disaster_id) {
            Some(d) => Ok(d.clone()),
            None => Err(Error::DisasterNotFound),
        }
    }

    fn require_active_disaster(&self, disaster_id: u64) -> (r: Result<DisasterEvent, Error>)
        requires
            self.inv(),
        ensures
            r == match self@.active_disaster_refusal(disaster_id) {
                Some(e) => Err(e),
                None => Ok(self@.disasters[disaster_id]),
            },
    {
        let disaster = match self.require_disaster_exists(disaster_id) {
            Ok(d) => d,
            Err(e) => return Err(e),
        };
        if disaster.status != DisasterStatus::Active {
            return Err(Error::DisasterNotActive);
        }
        Ok(disaster)
    }

    fn require_beneficiary_exists(&self, beneficiary_id: u64) -> (r: Result<Beneficiary, Error>)
        requires
            self.inv(),
        ensures
            r == self@.get_beneficiary(beneficiary_id),
    {
        match self.beneficiaries.get(&beneficiary_id) {
            Some(b) => Ok(b.clone()),
            None => Err(Error::BeneficiaryNotFound),
        }
    }

    fn require_beneficiary_by_wallet(&self, disaster_id: u64, wallet: &Address) -> (r: Result<
        Beneficiary,
        Error,
    >)
        requires
            self.inv(),
        ensures
            r == self@.beneficiary_by_wallet_lookup(disaster_id, wallet@),
    {
        let key = WalletKey { disaster_id, wallet: wallet.clone() };
        let beneficiary_id = match self.beneficiary_by_wallet.get(&key) {
            Some(id) => *id,
            None => return Err(Error::BeneficiaryNotFound),
        };
        self.require_beneficiary_exists(beneficiary_id)
    }

    fn require_verified_beneficiary(&self, disaster_id: u64, wallet: &Address) -> (r: Result<
        Beneficiary,
        Error,
    >)
        requires
            self.inv(),
        ensures
            r == match self@.beneficiary_by_wallet_lookup(disaster_id, wallet@) {
                Err(e) => Err(e),
                Ok(b) => if b.status == BeneficiaryStatus::Verified {
                    Ok(b)
                } else {
                    Err(Error::BeneficiaryNotVerified)
                },
            },
    {
        let beneficiary = match self.require_beneficiary_by_wallet(disaster_id, wallet) {
            Ok(b) => b,
            Err(e) => return Err(e),
        };
        if beneficiary.status != BeneficiaryStatus::Verified {
            return Err(Error::BeneficiaryNotVerified);
        }
        Ok(beneficiary)
    }

    fn require_vendor_exists(&self, vendor: &Address) -> (r: Result<Vendor, Error>)
        requires
            self.inv(),
        ensures
            r == self@.get_vendor(vendor@),
    {
        match self.vendors.get(vendor) {
            Some(v) => Ok(v.clone()),
            None => Err(Error::VendorNotFound),
        }
    }

    fn require_active_vendor(&self, vendor: &Address) -> (r: Result<Vendor, Error>)
        requires
            self.inv(),
        ensures
            r == match self@.get_vendor(vendor@) {
                Err(e) => Err(e),
                Ok(v) => if v.status == VendorStatus::Active {
                    Ok(v)
                } else {
                    Err(Error::VendorNotActive)
                },
            },
    {
        let vendor_data = match self.require_vendor_exists(vendor) {
            Ok(v) => v,
            Err(e) => return Err(e),
        };
        if vendor_data.status != VendorStatus::Active {
            return Err(Error::VendorNotActive);
        }
        Ok(vendor_data)
    }

    fn get_vault_balance_internal(&self, disaster_id: u64) -> (r: i128)
        requires
            self.inv(),
        ensures
            r == self@.vault_balance(disaster_id),
    {
        match self.vaults.get(&disaster_id) {
            Some(b) => *b,
            None => 0,
        }
    }

    fn get_voucher_record_internal(
        &self,
        disaster_id: u64,
        beneficiary: &Address,
        category: &Symbol,
    ) -> (r: VoucherBalance)
        requires
            self.inv(),
        ensures
            r == self@.voucher_record(disaster_id, beneficiary@, category@),
    {
        let key = VoucherKey { disaster_id, beneficiary: beneficiary.clone(), category: category.clone() };
        match self.vouchers.get(&key) {
            Some(v) => *v,
            None => VoucherBalance { amount: 0, expiry: 0 },
        }
    }

    /// Takes `amount` off the voucher of `beneficiary`, which must be stored,
    /// unexpired at `now` and large enough.
    fn spend_voucher_internal(
        &mut self,
        disaster_id: u64,
        beneficiary: &Address,
        vendor: &Address,
        category: &Symbol,
        amount: i128,
        now: u64,
    ) -> (r: Result<(), Error>)
        requires
            old(self).inv(),
        ensures
            final(self).inv(),
            ({
                let pre = old(self)@;
                let key = (disaster_id, beneficiary@, category@);
                if amount <= 0 {
                    r == Err::<(), Error>(Error::InvalidAmount) && final(self)@ == pre
                } else if !pre.vouchers.contains_key(key) {
                    r == Err::<(), Error>(Error::InsufficientVoucher) && final(self)@ == pre
                } else if pre.vouchers[key].expiry <= now {
                    r == Err::<(), Error>(Error::ExpiredVoucher) && final(self)@ == pre
                } else if pre.vouchers[key].amount < amount {
                    r == Err::<(), Error>(Error::InsufficientVoucher) && final(self)@ == pre
                } else {
                    &&& r == Ok::<(), Error>(())
                    &&& final(self)@ == (ReliefChainView {
                        vouchers: pre.vouchers.insert(
                            key,
                            VoucherBalance {
                                amount: (pre.vouchers[key].amount - amount) as i128,
                                expiry: pre.vouchers[key].expiry,
                            },
                        ),
                        events: pre.events.push(
                            Event::VoucherSpent {
                                disaster_id,
                                beneficiary: *beneficiary,
                                vendor: *vendor,
                                category: *category,
                                amount,
                            },
                        ),
                        ..pre
                    })
                }
            }),
    {
        if amount <= 0 {
            return Err(Error::InvalidAmount);
        }
        let key = VoucherKey { disaster_id, beneficiary: beneficiary.clone(), category: category.clone() };
        let mut record = match self.vouchers.get(&key) {
            Some(v) => *v,
            None => return Err(Error::InsufficientVoucher),
        };
        if record.expiry <= now {
            return Err(Error::ExpiredVoucher);
        }
        if record.amount < amount {
            return Err(Error::InsufficientVoucher);
        }
        record.amount = record.amount - amount;
        self.vouchers.insert(key, record);
        self.events.push(
            Event::VoucherSpent {
                disaster_id,
                beneficiary: beneficiary.clone(),
                vendor: vendor.clone(),
                category: category.clone(),
                amount,
            },
        );
        Ok(())
    }

    /// Pays `amount` out of the vault of `disaster_id` to `vendor`.
    fn release_to_vendor_internal(&mut self, disaster_id: u64, vendor: &Address, amount: i128) -> (r:
        Result<(), Error>)
        requires
            old(self).inv(),
        ensures
            final(self).inv(),
            ({
                let pre = old(self)@;
                if amount <= 0 {
                    r == Err::<(), Error>(Error::InvalidAmount) && final(self)@ == pre
                } else if pre.vault_balance(disaster_id) < amount {
                    r == Err::<(), Error>(Error::InsufficientVaultBalance) && final(self)@ == pre
                } else {
                    &&& r == Ok::<(), Error>(())
                    &&& final(self)@ == (ReliefChainView {
                        vaults: pre.vaults.insert(
                            disaster_id,
                            (pre.vault_balance(disaster_id) - amount) as i128,
                        ),
                        events: pre.events.push(
                            Event::VaultReleased { disaster_id, vendor: *vendor, amount },
                        ),
                        ..pre
                    })
                }
            }),
    {
        if amount <= 0 {
            return Err(Error::InvalidAmount);
        }
        let balance = self.get_vault_balance_internal(disaster_id);
        if balance < amount {
            return Err(Error::InsufficientVaultBalance);
        }
        let new_balance = balance - amount;
        self.vaults.insert(disaster_id, new_balance);
        self.events.push(Event::VaultReleased { disaster_id, vendor: vendor.clone(), amount });
        Ok(())
    }
}

impl ReliefChain {
    // ------------------------------------------------------------
    // Initialization & roles
    // ------------------------------------------------------------

    /// Makes `admin` the admin of a fresh ledger; refused once an admin is set.
    pub fn initialize(&mut self, admin: Address) -> (r: Result<(), Error>)
        requires
            old(self).inv(),
        ensures
            final(self).inv(),
            (final(self)@, r) == old(self)@.initialize(admin),
            r is Err ==> final(self)@ == old(self)@,
    {
        if self.admin.is_some() {
            return Err(Error::AlreadyInitialized);
        }
        self.admin = Some(admin.clone());
        self.events.push(Event::Initialized { admin });
        proof {
            self.lemma_balances_untouched(old(self));
        }
        Ok(())
    }

    /// The admin; refused before initialization.
    pub fn get_admin(&self) -> (r: Result<Address, Error>)
        ensures
            r == match self@.admin {
                Some(a) => Ok(a),
                None => Err::<Address, Error>(Error::NotInitialized),
            },
    {
        self.read_admin()
    }

    /// The admin grants `verifier` the verifier role.
    pub fn add_verifier(&mut self, admin: Address, verifier: Address) -> (r: Result<(), Error>)
        requires
            old(self).inv(),
        ensures
            final(self).inv(),
            (final(self)@, r) == old(self)@.add_verifier(admin, verifier),
            r is Err ==> final(self)@ == old(self)@,
    {
        if let Err(e) = self.require_admin(&admin) {
            return Err(e);
        }
        self.verifiers.insert(verifier.clone(), true);
        self.events.push(Event::VerifierAdded { verifier });
        proof {
            self.lemma_balances_untouched(old(self));
        }
        Ok(())
    }

    /// The admin takes the verifier role away from `verifier`.
    pub fn remove_verifier(&mut self, admin: Address, verifier: Address) -> (r: Result<(), Error>)
        requires
            old(self).inv(),
        ensures
            final(self).inv(),
            (final(self)@, r) == old(self)@.remove_verifier(admin, verifier),
            r is Err ==> final(self)@ == old(self)@,
    {
        if let Err(e) = self.require_admin(&admin) {
            return Err(e);
        }
        self.verifiers.insert(verifier.clone(), false);
        self.events.push(Event::VerifierRemoved { verifier });
        proof {
            self.lemma_balances_untouched(old(self));
        }
        Ok(())
    }

    /// Whether `verifier` holds the verifier role.
    pub fn is_verifier(&self, verifier: Address) -> (r: bool)
        requires
            self.inv(),
        ensures
            r == self@.is_verifier(verifier@),
    {
        match self.verifiers.get(&verifier) {
            Some(flag) => *flag,
            None => false,
        }
    }

    // ------------------------------------------------------------
    // Disaster registry
    // ------------------------------------------------------------

    /// The admin registers a new disaster, in `Draft`; returns its id.
    pub fn create_disaster(
        &mut self,
        admin: Address,
        name: String,
        location_hash: [u8; 32],
        disaster_type: Symbol,
        start_time: u64,
    ) -> (r: Result<u64, Error>)
        requires
            old(self).inv(),
            old(self)@.admin_refusal(admin@) is None ==> old(self)@.last_disaster_id < u64::MAX,
        ensures
            final(self).inv(),
            (final(self)@, r) == old(self)@.create_disaster(
                admin,
                name,
                location_hash,
                disaster_type,
                start_time,
            ),
            r is Err ==> final(self)@ == old(self)@,
    {
        if let Err(e) = self.require_admin(&admin) {
            return Err(e);
        }
        let disaster_id = self.next_disaster_id();
        let disaster = DisasterEvent {
            id: disaster_id,
            name,
            location_hash,
            disaster_type,
            start_time,
            status: DisasterStatus::Draft,
        };
        self.disasters.insert(disaster_id, disaster);
        self.events.push(Event::DisasterCreated { disaster_id });
        Ok(disaster_id)
    }

    fn set_disaster_status(
        &mut self,
        admin: Address,
        disaster_id: u64,
        status: DisasterStatus,
        event: Event,
    ) -> (r: Result<(), Error>)
        requires
            old(self).inv(),
        ensures
            final(self).inv(),
            (final(self)@, r) == old(self)@.set_disaster_status(admin, disaster_id, status, event),
            r is Err ==> final(self)@ == old(self)@,
    {
        if let Err(e) = self.require_admin(&admin) {
            return Err(e);
        }
        let mut disaster = match self.require_disaster_exists(disaster_id) {
            Ok(d) => d,
            Err(e) => return Err(e),
        };
        disaster.status = status;
        self.disasters.insert(disaster_id, disaster);
        self.events.push(event);
        proof {
            self.lemma_balances_untouched(old(self));
        }
        Ok(())
    }

    /// The admin opens disaster `disaster_id` for registrations, vouchers and
    /// redemptions.
    pub fn activate_disaster(&mut self, admin: Address, disaster_id: u64) -> (r: Result<(), Error>)
        requires
            old(self).inv(),
        ensures
            final(self).inv(),
            (final(self)@, r) == old(self)@.activate_disaster(admin, disaster_id),
            r is Err ==> final(self)@ == old(self)@,
    {
        self.set_disaster_status(
            admin,
            disaster_id,
            DisasterStatus::Active,
            Event::DisasterActivated { disaster_id },
        )
    }

    /// The admin closes disaster `disaster_id`.
    pub fn close_disaster(&mut self, admin: Address, disaster_id: u64) -> (r: Result<(), Error>)
        requires
            old(self).inv(),
        ensures
            final(self).inv(),
            (final(self)@, r) == old(self)@.close_disaster(admin, disaster_id),
            r is Err ==> final(self)@ == old(self)@,
    {
        self.set_disaster_status(
            admin,
            disaster_id,
            DisasterStatus::Closed,
            Event::DisasterClosed { disaster_id },
        )
    }

    /// The disaster with id `disaster_id`.
    pub fn get_disaster(&self, disaster_id: u64) -> (r: Result<DisasterEvent, Error>)
        requires
            self.inv(),
        ensures
            r == self@.get_disaster(disaster_id),
    {
        self.require_disaster_exists(disaster_id)
    }

    // ------------------------------------------------------------
    // Beneficiary registry
    // ------------------------------------------------------------

    /// A verifier registers `wallet` as a pending beneficiary of the active
    /// disaster `disaster_id`; a wallet is registered at most once per
    /// disaster. Returns the new beneficiary's id.
    pub fn register_beneficiary(
        &mut self,
        verifier: Address,
        disaster_id: u64,
        wallet: Address,
        credential_hash: [u8; 32],
    ) -> (r: Result<u64, Error>)
        requires
            old(self).inv(),
            old(self)@.register_beneficiary_refusal(verifier, disaster_id, wallet) is None
                ==> old(self)@.last_beneficiary_id < u64::MAX,
        ensures
            final(self).inv(),
            (final(self)@, r) == old(self)@.register_beneficiary(
                verifier,
                disaster_id,
                wallet,
                credential_hash,
            ),
            r is Err ==> final(self)@ == old(self)@,
    {
        if let Err(e) = self.require_verifier(&verifier) {
            return Err(e);
        }
        if let Err(e) = self.require_active_disaster(disaster_id) {
            return Err(e);
        }
        let duplicate_key = WalletKey { disaster_id, wallet: wallet.clone() };
        if self.beneficiary_by_wallet.contains(&duplicate_key) {
            return Err(Error::BeneficiaryAlreadyRegistered);
        }
        let beneficiary_id = self.next_beneficiary_id();
        let beneficiary = Beneficiary {
            id: beneficiary_id,
            wallet: wallet.clone(),
            disaster_id,
            credential_hash,
            status: BeneficiaryStatus::Pending,
        };
        self.beneficiaries.insert(beneficiary_id, beneficiary);
        self.beneficiary_by_wallet.insert(duplicate_key, beneficiary_id);
        self.events.push(Event::BeneficiaryRegistered { disaster_id, beneficiary_id, wallet });
        Ok(beneficiary_id)
    }

    fn review_beneficiary(
        &mut self,
        verifier: Address,
        beneficiary_id: u64,
        status: BeneficiaryStatus,
        event: Event,
    ) -> (r: Result<(), Error>)
        requires
            old(self).inv(),
        ensures
            final(self).inv(),
            (final(self)@, r) == old(self)@.review_beneficiary(verifier, beneficiary_id, status, event),
            r is Err ==> final(self)@ == old(self)@,
    {
        if let Err(e) = self.require_verifier(&verifier) {
            return Err(e);
        }
        let mut beneficiary = match self.require_beneficiary_exists(beneficiary_id) {
            Ok(b) => b,
            Err(e) => return Err(e),
        };
        if beneficiary.status != BeneficiaryStatus::Pending {
            return Err(Error::InvalidStatus);
        }
        beneficiary.status = status;
        self.beneficiaries.insert(beneficiary_id, beneficiary);
        self.events.push(event);
        proof {
            self.lemma_balances_untouched(old(self));
        }
        Ok(())
    }

    /// A verifier accepts pending beneficiary `beneficiary_id`.
    pub fn verify_beneficiary(&mut self, verifier: Address, beneficiary_id: u64) -> (r: Result<
        (),
        Error,
    >)
        requires
            old(self).inv(),
        ensures
            final(self).inv(),
            (final(self)@, r) == old(self)@.verify_beneficiary(verifier, beneficiary_id),
            r is Err ==> final(self)@ == old(self)@,
    {
        self.review_beneficiary(
            verifier,
            beneficiary_id,
            BeneficiaryStatus::Verified,
            Event::BeneficiaryVerified { beneficiary_id },
        )
    }

    /// A verifier rejects pending beneficiary `beneficiary_id`.
    pub fn reject_beneficiary(&mut self, verifier: Address, beneficiary_id: u64) -> (r: Result<
        (),
        Error,
    >)
        requires
            old(self).inv(),
        ensures
            final(self).inv(),
            (final(self)@, r) == old(self)@.reject_beneficiary(verifier, beneficiary_id),
            r is Err ==> final(self)@ == old(self)@,
    {
        self.review_beneficiary(
            verifier,
            beneficiary_id,
            BeneficiaryStatus::Rejected,
            Event::BeneficiaryRejected { beneficiary_id },
        )
    }

    /// The beneficiary with id `beneficiary_id`.
    pub fn get_beneficiary(&self, beneficiary_id: u64) -> (r: Result<Beneficiary, Error>)
        requires
            self.inv(),
        ensures
            r == self@.get_beneficiary(beneficiary_id),
    {
        self.require_beneficiary_exists(beneficiary_id)
    }

    /// The beneficiary registered with `wallet` for `disaster_id`.
    pub fn get_beneficiary_by_wallet(&self, disaster_id: u64, wallet: Address) -> (r: Result<
        Beneficiary,
        Error,
    >)
        requires
            self.inv(),
        ensures
            r == self@.beneficiary_by_wallet_lookup(disaster_id, wallet@),
    {
        self.require_beneficiary_by_wallet(disaster_id, &wallet)
    }

    // ------------------------------------------------------------
    // Vendor registry
    // ------------------------------------------------------------

    /// `vendor` signs up, pending approval, for one aid category.
    pub fn register_vendor(&mut self, vendor: Address, metadata_hash: [u8; 32], category: Symbol) -> (r:
        Result<(), Error>)
        requires
            old(self).inv(),
        ensures
            final(self).inv(),
            (final(self)@, r) == old(self)@.register_vendor(vendor, metadata_hash, category),
            r is Err ==> final(self)@ == old(self)@,
    {
        if self.vendors.contains(&vendor) {
            return Err(Error::InvalidStatus);
        }
        let vendor_data = Vendor {
            wallet: vendor.clone(),
            metadata_hash,
            category,
            status: VendorStatus::Pending,
        };
        self.vendors.insert(vendor.clone(), vendor_data);
        self.events.push(Event::VendorRegistered { vendor });
        proof {
            self.lemma_balances_untouched(old(self));
        }
        Ok(())
    }

    fn set_vendor_status(&mut self, admin: Address, vendor: Address, status: VendorStatus, event: Event) -> (r:
        Result<(), Error>)
        requires
            old(self).inv(),
        ensures
            final(self).inv(),
            (final(self)@, r) == old(self)@.set_vendor_status(admin, vendor, status, event),
            r is Err ==> final(self)@ == old(self)@,
    {
        if let Err(e) = self.require_admin(&admin) {
            return Err(e);
        }
        let mut vendor_data = match self.require_vendor_exists(&vendor) {
            Ok(v) => v,
            Err(e) => return Err(e),
        };
        vendor_data.status = status;
        self.vendors.insert(vendor, vendor_data);
        self.events.push(event);
        proof {
            self.lemma_balances_untouched(old(self));
        }
        Ok(())
    }

    /// The admin approves `vendor`, which may then redeem vouchers.
    pub fn approve_vendor(&mut self, admin: Address, vendor: Address) -> (r: Result<(), Error>)
        requires
            old(self).inv(),
        ensures
            final(self).inv(),
            (final(self)@, r) == old(self)@.approve_vendor(admin, vendor),
            r is Err ==> final(self)@ == old(self)@,
    {
        let event = Event::VendorApproved { vendor: vendor.clone() };
        self.set_vendor_status(admin, vendor, VendorStatus::Active, event)
    }

    /// The admin suspends `vendor`.
    pub fn suspend_vendor(&mut self, admin: Address, vendor: Address) -> (r: Result<(), Error>)
        requires
            old(self).inv(),
        ensures
            final(self).inv(),
            (final(self)@, r) == old(self)@.suspend_vendor(admin, vendor),
            r is Err ==> final(self)@ == old(self)@,
    {
        let event = Event::VendorSuspended { vendor: vendor.clone() };
        self.set_vendor_status(admin, vendor, VendorStatus::Suspended, event)
    }

    /// The vendor registered with wallet `vendor`.
    pub fn get_vendor(&self, vendor: Address) -> (r: Result<Vendor, Error>)
        requires
            self.inv(),
        ensures
            r == self@.get_vendor(vendor@),
    {
        self.require_vendor_exists(&vendor)
    }

    // ------------------------------------------------------------
    // Aid vouchers
    // ------------------------------------------------------------

    /// A verifier adds `amount` to the voucher that verified beneficiary
    /// `beneficiary_id` holds for `category`; the voucher then expires at
    /// `expiry` or at its earlier expiry, whichever is later.
    pub fn issue_voucher(
        &mut self,
        verifier: Address,
        beneficiary_id: u64,
        category: Symbol,
        amount: i128,
        expiry: u64,
        now: u64,
    ) -> (r: Result<(), Error>)
        requires
            old(self).inv(),
            old(self)@.issue_voucher_refusal(verifier, beneficiary_id, amount, expiry, now) is None
                ==> ({
                let ben = old(self)@.beneficiaries[beneficiary_id];
                old(self)@.voucher_record(ben.disaster_id, ben.wallet@, category@).amount + amount
                    <= i128::MAX
            }),
        ensures
            final(self).inv(),
            (final(self)@, r) == old(self)@.issue_voucher(
                verifier,
                beneficiary_id,
                category,
                amount,
                expiry,
                now,
            ),
            r is Err ==> final(self)@ == old(self)@,
    {
        if let Err(e) = self.require_verifier(&verifier) {
            return Err(e);
        }
        if amount <= 0 {
            return Err(Error::InvalidAmount);
        }
        if expiry <= now {
            return Err(Error::ExpiredVoucher);
        }
        let beneficiary = match self.require_beneficiary_exists(beneficiary_id) {
            Ok(b) => b,
            Err(e) => return Err(e),
        };
        if beneficiary.status != BeneficiaryStatus::Verified {
            return Err(Error::BeneficiaryNotVerified);
        }
        if let Err(e) = self.require_active_disaster(beneficiary.disaster_id) {
            return Err(e);
        }
        let key = VoucherKey {
            disaster_id: beneficiary.disaster_id,
            beneficiary: beneficiary.wallet.clone(),
            category: category.clone(),
        };
        let current = match self.vouchers.get(&key) {
            Some(v) => *v,
            None => VoucherBalance { amount: 0, expiry },
        };
        let new_expiry = if expiry > current.expiry {
            expiry
        } else {
            current.expiry
        };
        let updated = VoucherBalance { amount: current.amount + amount, expiry: new_expiry };
        self.vouchers.insert(key, updated);
        self.events.push(
            Event::VoucherIssued {
                disaster_id: beneficiary.disaster_id,
                wallet: beneficiary.wallet,
                category,
                amount,
            },
        );
        Ok(())
    }

    /// What the voucher of `beneficiary` for `disaster_id` and `category` is
    /// worth at time `now`: 0 once it has expired.
    pub fn get_voucher_balance(
        &self,
        disaster_id: u64,
        beneficiary: Address,
        category: Symbol,
        now: u64,
    ) -> (r: i128)
        requires
            self.inv(),
        ensures
            r == self@.voucher_balance(disaster_id, beneficiary@, category@, now),
    {
        let record = self.get_voucher_record_internal(disaster_id, &beneficiary, &category);
        if record.expiry <= now {
            return 0;
        }
        record.amount
    }

    /// The stored voucher of `beneficiary` for `disaster_id` and `category`,
    /// expired or not; amount 0 and expiry 0 where none was issued.
    pub fn get_voucher_record(&self, disaster_id: u64, beneficiary: Address, category: Symbol) -> (r:
        VoucherBalance)
        requires
            self.inv(),
        ensures
            r == self@.voucher_record(disaster_id, beneficiary@, category@),
    {
        self.get_voucher_record_internal(disaster_id, &beneficiary, &category)
    }

    // ------------------------------------------------------------
    // Relief vault (simulated accounting)
    // ------------------------------------------------------------

    /// The admin credits `amount` to the vault of active disaster `disaster_id`.
    pub fn deposit_simulated(&mut self, admin: Address, disaster_id: u64, amount: i128) -> (r: Result<
        (),
        Error,
    >)
        requires
            old(self).inv(),
            old(self)@.deposit_refusal(admin, disaster_id, amount) is None
                ==> old(self)@.vault_balance(disaster_id) + amount <= i128::MAX,
        ensures
            final(self).inv(),
            (final(self)@, r) == old(self)@.deposit_simulated(admin, disaster_id, amount),
            r is Err ==> final(self)@ == old(self)@,
    {
        if let Err(e) = self.require_admin(&admin) {
            return Err(e);
        }
        if amount <= 0 {
            return Err(Error::InvalidAmount);
        }
        if let Err(e) = self.require_active_disaster(disaster_id) {
            return Err(e);
        }
        let current = self.get_vault_balance_internal(disaster_id);
        let updated = current + amount;
        self.vaults.insert(disaster_id, updated);
        self.events.push(Event::VaultDeposited { disaster_id, amount });
        proof {
            law_step_keeps_consistency(
                old(self)@,
                Request::DepositSimulated { admin, disaster_id, amount },
            );
        }
        Ok(())
    }

    /// The vault balance of `disaster_id`; 0 where nothing was deposited.
    pub fn get_vault_balance(&self, disaster_id: u64) -> (r: i128)
        requires
            self.inv(),
        ensures
            r == self@.vault_balance(disaster_id),
    {
        self.get_vault_balance_internal(disaster_id)
    }

    /// The redemption with id `redemption_id`.
    pub fn get_redemption(&self, redemption_id: u64) -> (r: Result<Redemption, Error>)
        requires
            self.inv(),
        ensures
            r == self@.get_redemption(redemption_id),
    {
        match self.redemptions.get(&redemption_id) {
            Some(r) => Ok(r.clone()),
            None => Err(Error::RedemptionNotFound),
        }
    }
}

impl ReliefChain {
    // ------------------------------------------------------------
    // Redemption
    // ------------------------------------------------------------

    /// An active vendor redeems `voucher_amount` of the voucher that verified
    /// beneficiary `beneficiary_wallet` holds for `disaster_id` and `category`,
    /// and is paid `payout_amount` out of the disaster's vault. Returns the id
    /// of the stored redemption.
    pub fn redeem_voucher(
        &mut self,
        vendor: Address,
        beneficiary_wallet: Address,
        disaster_id: u64,
        category: Symbol,
        voucher_amount: i128,
        payout_amount: i128,
        now: u64,
    ) -> (r: Result<u64, Error>)
        requires
            old(self).inv(),
            old(self)@.redeem_refusal(
                vendor,
                beneficiary_wallet,
                disaster_id,
                category,
                voucher_amount,
                payout_amount,
                now,
            ) is None ==> old(self)@.last_redemption_id < u64::MAX,
        ensures
            final(self).inv(),
            (final(self)@, r) == old(self)@.redeem_voucher(
                vendor,
                beneficiary_wallet,
                disaster_id,
                category,
                voucher_amount,
                payout_amount,
                now,
            ),
            r is Err ==> final(self)@ == old(self)@,
    {
        if voucher_amount <= 0 || payout_amount <= 0 {
            return Err(Error::InvalidAmount);
        }
        if let Err(e) = self.require_active_disaster(disaster_id) {
            return Err(e);
        }
        let vendor_data = match self.require_active_vendor(&vendor) {
            Ok(v) => v,
            Err(e) => return Err(e),
        };
        if !vendor_data.category.same_as(&category) {
            return Err(Error::InvalidStatus);
        }
        let beneficiary = match self.require_verified_beneficiary(disaster_id, &beneficiary_wallet) {
            Ok(b) => b,
            Err(e) => return Err(e),
        };
        let voucher_record = self.get_voucher_record_internal(
            disaster_id,
            &beneficiary_wallet,
            &category,
        );
        if voucher_record.expiry <= now {
            return Err(Error::ExpiredVoucher);
        }
        if voucher_record.amount < voucher_amount {
            return Err(Error::InsufficientVoucher);
        }
        let vault_balance = self.get_vault_balance_internal(disaster_id);
        if vault_balance < payout_amount {
            return Err(Error::InsufficientVaultBalance);
        }
        if let Err(e) = self.spend_voucher_internal(
            disaster_id,
            &beneficiary_wallet,
            &vendor,
            &category,
            voucher_amount,
            now,
        ) {
            return Err(e);
        }
        if let Err(e) = self.release_to_vendor_internal(disaster_id, &vendor, payout_amount) {
            return Err(e);
        }
        let redemption_id = self.next_redemption_id();
        let redemption = Redemption {
            id: redemption_id,
            disaster_id,
            vendor: vendor.clone(),
            beneficiary: beneficiary.wallet.clone(),
            category: category.clone(),
            voucher_amount,
            payout_amount,
            status: RedemptionStatus::Paid,
            created_at: now,
        };
        self.redemptions.insert(redemption_id, redemption);
        self.events.push(
            Event::RedemptionPaid {
                disaster_id,
                redemption_id,
                vendor,
                beneficiary: beneficiary.wallet,
                payout_amount,
            },
        );
        Ok(redemption_id)
    }
}

impl ReliefChain {
    // ------------------------------------------------------------
    // Any request
    // ------------------------------------------------------------

    fn register_beneficiary_refusal(&self, verifier: &Address, disaster_id: u64, wallet: &Address) -> (r:
        Option<Error>)
        requires
            self.inv(),
        ensures
            r == self@.register_beneficiary_refusal(*verifier, disaster_id, *wallet),
    {
        if let Err(e) = self.require_verifier(verifier) {
            return Some(e);
        }
        if let Err(e) = self.require_active_disaster(disaster_id) {
            return Some(e);
        }
        if self.beneficiary_by_wallet.contains(&WalletKey { disaster_id, wallet: wallet.clone() }) {
            return Some(Error::BeneficiaryAlreadyRegistered);
        }
        None
    }

    fn issue_voucher_refusal(
        &self,
        verifier: &Address,
        beneficiary_id: u64,
        amount: i128,
        expiry: u64,
        now: u64,
    ) -> (r: Option<Error>)
        requires
            self.inv(),
        ensures
            r == self@.issue_voucher_refusal(*verifier, beneficiary_id, amount, expiry, now),
    {
        if let Err(e) = self.require_verifier(verifier) {
            return Some(e);
        }
        if amount <= 0 {
            return Some(Error::InvalidAmount);
        }
        if expiry <= now {
            return Some(Error::ExpiredVoucher);
        }
        let beneficiary = match self.require_beneficiary_exists(beneficiary_id) {
            Ok(b) => b,
            Err(e) => return Some(e),
        };
        if beneficiary.status != BeneficiaryStatus::Verified {
            return Some(Error::BeneficiaryNotVerified);
        }
        match self.require_active_disaster(beneficiary.disaster_id) {
            Ok(_) => None,
            Err(e) => Some(e),
        }
    }

    fn deposit_refusal(&self, admin: &Address, disaster_id: u64, amount: i128) -> (r: Option<Error>)
        requires
            self.inv(),
        ensures
            r == self@.deposit_refusal(*admin, disaster_id, amount),
    {
        if let Err(e) = self.require_admin(admin) {
            return Some(e);
        }
        if amount <= 0 {
            return Some(Error::InvalidAmount);
        }
        match self.require_active_disaster(disaster_id) {
            Ok(_) => None,
            Err(e) => Some(e),
        }
    }

    fn redeem_refusal(
        &self,
        vendor: &Address,
        beneficiary_wallet: &Address,
        disaster_id: u64,
        category: &Symbol,
        voucher_amount: i128,
        payout_amount: i128,
        now: u64,
    ) -> (r: Option<Error>)
        requires
            self.inv(),
        ensures
            r == self@.redeem_refusal(
                *vendor,
                *beneficiary_wallet,
                disaster_id,
                *category,
                voucher_amount,
                payout_amount,
                now,
            ),
    {
        if voucher_amount <= 0 || payout_amount <= 0 {
            return Some(Error::InvalidAmount);
        }
        if let Err(e) = self.require_active_disaster(disaster_id) {
            return Some(e);
        }
        let vendor_data = match self.require_active_vendor(vendor) {
            Ok(v) => v,
            Err(e) => return Some(e),
        };
        if !vendor_data.category.same_as(category) {
            return Some(Error::InvalidStatus);
        }
        if let Err(e) = self.require_verified_beneficiary(disaster_id, beneficiary_wallet) {
            return Some(e);
        }
        let record = self.get_voucher_record_internal(disaster_id, beneficiary_wallet, category);
        if record.expiry <= now {
            return Some(Error::ExpiredVoucher);
        }
        if record.amount < voucher_amount {
            return Some(Error::InsufficientVoucher);
        }
        if self.get_vault_balance_internal(disaster_id) < payout_amount {
            return Some(Error::InsufficientVaultBalance);
        }
        None
    }

    /// Whether `request` stays within the machine's integer ranges, so that
    /// it may be applied.
    pub fn admissible(&self, request: &Request) -> (r: bool)
        requires
            self.inv(),
        ensures
            r == self@.admissible(*request),
    {
        match request {
            Request::CreateDisaster { admin, .. } => self.last_disaster_id < u64::MAX
                || self.require_admin(admin).is_err(),
            Request::RegisterBeneficiary { verifier, disaster_id, wallet, .. } => self.last_beneficiary_id
                < u64::MAX || self.register_beneficiary_refusal(verifier, *disaster_id, wallet).is_some(),
            Request::IssueVoucher { verifier, beneficiary_id, category, amount, expiry, now } => {
                if self.issue_voucher_refusal(verifier, *beneficiary_id, *amount, *expiry, *now).is_some() {
                    return true;
                }
                let beneficiary = match self.require_beneficiary_exists(*beneficiary_id) {
                    Ok(b) => b,
                    Err(_) => return true,
                };
                let record = self.get_voucher_record_internal(
                    beneficiary.disaster_id,
                    &beneficiary.wallet,
                    category,
                );
                record.amount <= i128::MAX - *amount
            },
            Request::DepositSimulated { admin, disaster_id, amount } => {
                if self.deposit_refusal(admin, *disaster_id, *amount).is_some() {
                    return true;
                }
                self.get_vault_balance_internal(*disaster_id) <= i128::MAX - *amount
            },
            Request::RedeemVoucher {
                vendor,
                beneficiary_wallet,
                disaster_id,
                category,
                voucher_amount,
                payout_amount,
                now,
            } => self.last_redemption_id < u64::MAX || self.redeem_refusal(
                vendor,
                beneficiary_wallet,
                *disaster_id,
                category,
                *voucher_amount,
                *payout_amount,
                *now,
            ).is_some(),
            _ => true,
        }
    }

    /// Applies any request: returns the id it created, `Ok(0)` where it
    /// creates none, or why it was refused.
    pub fn apply(&mut self, request: Request) -> (r: Result<u64, Error>)
        requires
            old(self).inv(),
            old(self)@.admissible(request),
        ensures
            final(self).inv(),
            (final(self)@, r) == old(self)@.step(request),
    {
        let done = match request {
            Request::Initialize { admin } => self.initialize(admin),
            Request::AddVerifier { admin, verifier } => self.add_verifier(admin, verifier),
            Request::RemoveVerifier { admin, verifier } => self.remove_verifier(admin, verifier),
            Request::CreateDisaster { admin, name, location_hash, disaster_type, start_time } => {
                return self.create_disaster(admin, name, location_hash, disaster_type, start_time);
            },
            Request::ActivateDisaster { admin, disaster_id } => self.activate_disaster(admin, disaster_id),
            Request::CloseDisaster { admin, disaster_id } => self.close_disaster(admin, disaster_id),
            Request::RegisterBeneficiary { verifier, disaster_id, wallet, credential_hash } => {
                return self.register_beneficiary(verifier, disaster_id, wallet, credential_hash);
            },
            Request::VerifyBeneficiary { verifier, beneficiary_id } => self.verify_beneficiary(
                verifier,
                beneficiary_id,
            ),
            Request::RejectBeneficiary { verifier, beneficiary_id } => self.reject_beneficiary(
                verifier,
                beneficiary_id,
            ),
            Request::RegisterVendor { vendor, metadata_hash, category } => self.register_vendor(
                vendor,
                metadata_hash,
                category,
            ),
            Request::ApproveVendor { admin, vendor } => self.approve_vendor(admin, vendor),
            Request::SuspendVendor { admin, vendor } => self.suspend_vendor(admin, vendor),
            Request::IssueVoucher { verifier, beneficiary_id, category, amount, expiry, now } => self.issue_voucher(
                verifier,
                beneficiary_id,
                category,
                amount,
                expiry,
                now,
            ),
            Request::DepositSimulated { admin, disaster_id, amount } => self.deposit_simulated(
                admin,
                disaster_id,
                amount,
            ),
            Request::RedeemVoucher {
                vendor,
                beneficiary_wallet,
                disaster_id,
                category,
                voucher_amount,
                payout_amount,
                now,
            } => {
                return self.redeem_voucher(
                    vendor,
                    beneficiary_wallet,
                    disaster_id,
                    category,
                    voucher_amount,
                    payout_amount,
                    now,
                );
            },
        };
        match done {
            Ok(()) => Ok(0),
            Err(e) => Err(e),
        }
    }
}

} // verus!
