//! Plain-value domain types of the relief ledger.

use vstd::prelude::*;

verus! {

/// An account identity, held as its textual (strkey) form.
#[derive(Debug, PartialEq, Eq, Hash)]
pub struct Address {
    strkey: String,
}

impl View for Address {
    type V = Seq<char>;

    closed spec fn view(&self) -> Seq<char> {
        self.strkey@
    }
}

impl Clone for Address {
    fn clone(&self) -> (r: Self)
        ensures
            r == *self,
    {
        Address { strkey: self.strkey.clone() }
    }
}

impl Address {
    /// Makes an address from its textual form.
    pub fn new(strkey: String) -> (r: Address)
        ensures
            r@ == strkey@,
    {
        Address { strkey }
    }

    /// The textual form of the address.
    pub fn as_string(&self) -> (r: &String)
        ensures
            r@ == self@,
    {
        &self.strkey
    }

    /// Whether two addresses denote the same account.
    pub fn same_as(&self, other: &Address) -> (r: bool)
        ensures
            r == (self@ == other@),
    {
        self.strkey == other.strkey
    }
}


/// A short name such as an aid category (`FOOD`, `MED`) or a disaster kind.
#[derive(Debug, PartialEq, Eq, Hash)]
pub struct Symbol {
    name: String,
}

impl View for Symbol {
    type V = Seq<char>;

    closed spec fn view(&self) -> Seq<char> {
        self.name@
    }
}

impl Clone for Symbol {
    fn clone(&self) -> (r: Self)
        ensures
            r == *self,
    {
        Symbol { name: self.name.clone() }
    }
}

impl Symbol {
    /// Makes a symbol from its text.
    pub fn new(name: String) -> (r: Symbol)
        ensures
            r@ == name@,
    {
        Symbol { name }
    }

    /// The text of the symbol.
    pub fn as_string(&self) -> (r: &String)
        ensures
            r@ == self@,
    {
        &self.name
    }

    /// Whether two symbols have the same text.
    pub fn same_as(&self, other: &Symbol) -> (r: bool)
        ensures
            r == (self@ == other@),
    {
        self.name == other.name
    }
}

/// Why a request was refused.
#[derive(Debug, Clone, Copy, PartialEq, Eq, Structural, Hash)]
pub enum Error {
    AlreadyInitialized,
    NotInitialized,
    Unauthorized,
    DisasterNotFound,
    DisasterNotActive,
    BeneficiaryNotFound,
    BeneficiaryAlreadyRegistered,
    BeneficiaryNotVerified,
    VendorNotFound,
    VendorNotActive,
    InsufficientVoucher,
    InsufficientVaultBalance,
    RedemptionNotFound,
    InvalidStatus,
    InvalidAmount,
    ExpiredVoucher,
}

/// Lifecycle of a disaster event.
#[derive(Debug, Clone, Copy, PartialEq, Eq, Structural, Hash)]
pub enum DisasterStatus {
    Draft,
    Active,
    Closed,
    Cancelled,
}

/// A registered disaster event.
#[derive(Debug, PartialEq, Eq)]
pub struct DisasterEvent {
    pub id: u64,
    pub name: String,
    pub location_hash: [u8; 32],
    pub disaster_type: Symbol,
    pub start_time: u64,
    pub status: DisasterStatus,
}

impl Clone for DisasterEvent {
    fn clone(&self) -> (r: Self)
        ensures
            r == *self,
    {
        DisasterEvent {
            id: self.id,
            name: self.name.clone(),
            location_hash: self.location_hash,
            disaster_type: self.disaster_type.clone(),
            start_time: self.start_time,
            status: self.status,
        }
    }
}

/// Lifecycle of a beneficiary registration.
#[derive(Debug, Clone, Copy, PartialEq, Eq, Structural, Hash)]
pub enum BeneficiaryStatus {
    Pending,
    Verified,
    Rejected,
    Assisted,
}

/// A beneficiary registered for one disaster.
#[derive(Debug, PartialEq, Eq)]
pub struct Beneficiary {
    pub id: u64,
    pub wallet: Address,
    pub disaster_id: u64,
    pub credential_hash: [u8; 32],
    pub status: BeneficiaryStatus,
}

impl Clone for Beneficiary {
    fn clone(&self) -> (r: Self)
        ensures
            r == *self,
    {
        Beneficiary {
            id: self.id,
            wallet: self.wallet.clone(),
            disaster_id: self.disaster_id,
            credential_hash: self.credential_hash,
            status: self.status,
        }
    }
}

/// Lifecycle of a vendor registration.
#[derive(Debug, Clone, Copy, PartialEq, Eq, Structural, Hash)]
pub enum VendorStatus {
    Pending,
    Active,
    Suspended,
    Rejected,
}

/// An aid vendor, serving one category.
#[derive(Debug, PartialEq, Eq)]
pub struct Vendor {
    pub wallet: Address,
    pub metadata_hash: [u8; 32],
    pub category: Symbol,
    pub status: VendorStatus,
}

impl Clone for Vendor {
    fn clone(&self) -> (r: Self)
        ensures
            r == *self,
    {
        Vendor {
            wallet: self.wallet.clone(),
            metadata_hash: self.metadata_hash,
            category: self.category.clone(),
            status: self.status,
        }
    }
}

/// The voucher held by one beneficiary, for one disaster and one category.
#[derive(Debug, Clone, Copy, PartialEq, Eq, Structural, Hash)]
pub struct VoucherBalance {
    pub amount: i128,
    pub expiry: u64,
}

/// Lifecycle of a redemption.
#[derive(Debug, Clone, Copy, PartialEq, Eq, Structural, Hash)]
pub enum RedemptionStatus {
    Pending,
    Paid,
    Disputed,
    Cancelled,
}

/// A voucher redemption paid out of the relief vault.
#[derive(Debug, PartialEq, Eq)]
pub struct Redemption {
    pub id: u64,
    pub disaster_id: u64,
    pub vendor: Address,
    pub beneficiary: Address,
    pub category: Symbol,
    pub voucher_amount: i128,
    pub payout_amount: i128,
    pub status: RedemptionStatus,
    pub created_at: u64,
}

impl Clone for Redemption {
    fn clone(&self) -> (r: Self)
        ensures
            r == *self,
    {
        Redemption {
            id: self.id,
            disaster_id: self.disaster_id,
            vendor: self.vendor.clone(),
            beneficiary: self.beneficiary.clone(),
            category: self.category.clone(),
            voucher_amount: self.voucher_amount,
            payout_amount: self.payout_amount,
            status: self.status,
            created_at: self.created_at,
        }
    }
}

/// A notification that the ledger publishes when a request succeeds.
#[derive(Debug, PartialEq, Eq)]
pub enum Event {
    /// The ledger got its admin.
    Initialized { admin: Address },
    /// A wallet was granted the verifier role.
    VerifierAdded { verifier: Address },
    /// A wallet lost the verifier role.
    VerifierRemoved { verifier: Address },
    /// A disaster was registered, in draft.
    DisasterCreated { disaster_id: u64 },
    /// A disaster became active.
    DisasterActivated { disaster_id: u64 },
    /// A disaster was closed.
    DisasterClosed { disaster_id: u64 },
    /// A wallet was registered as a beneficiary of a disaster.
    BeneficiaryRegistered { disaster_id: u64, beneficiary_id: u64, wallet: Address },
    /// A beneficiary was verified.
    BeneficiaryVerified { beneficiary_id: u64 },
    /// A beneficiary was rejected.
    BeneficiaryRejected { beneficiary_id: u64 },
    /// A vendor signed up.
    VendorRegistered { vendor: Address },
    /// A vendor was approved.
    VendorApproved { vendor: Address },
    /// A vendor was suspended.
    VendorSuspended { vendor: Address },
    /// A voucher was issued or topped up.
    VoucherIssued { disaster_id: u64, wallet: Address, category: Symbol, amount: i128 },
    /// Part of a voucher was spent at a vendor.
    VoucherSpent {
        disaster_id: u64,
        beneficiary: Address,
        vendor: Address,
        category: Symbol,
        amount: i128,
    },
    /// Funds were credited to a disaster's vault.
    VaultDeposited { disaster_id: u64, amount: i128 },
    /// Funds left a disaster's vault for a vendor.
    VaultReleased { disaster_id: u64, vendor: Address, amount: i128 },
    /// A redemption was recorded as paid.
    RedemptionPaid {
        disaster_id: u64,
        redemption_id: u64,
        vendor: Address,
        beneficiary: Address,
        payout_amount: i128,
    },
}

/// A request that changes the ledger, with everything it is given.
#[derive(Debug, PartialEq, Eq)]
pub enum Request {
    Initialize { admin: Address },
    AddVerifier { admin: Address, verifier: Address },
    RemoveVerifier { admin: Address, verifier: Address },
    CreateDisaster {
        admin: Address,
        name: String,
        location_hash: [u8; 32],
        disaster_type: Symbol,
        start_time: u64,
    },
    ActivateDisaster { admin: Address, disaster_id: u64 },
    CloseDisaster { admin: Address, disaster_id: u64 },
    RegisterBeneficiary {
        verifier: Address,
        disaster_id: u64,
        wallet: Address,
        credential_hash: [u8; 32],
    },
    VerifyBeneficiary { verifier: Address, beneficiary_id: u64 },
    RejectBeneficiary { verifier: Address, beneficiary_id: u64 },
    RegisterVendor { vendor: Address, metadata_hash: [u8; 32], category: Symbol },
    ApproveVendor { admin: Address, vendor: Address },
    SuspendVendor { admin: Address, vendor: Address },
    IssueVoucher {
        verifier: Address,
        beneficiary_id: u64,
        category: Symbol,
        amount: i128,
        expiry: u64,
        now: u64,
    },
    DepositSimulated { admin: Address, disaster_id: u64, amount: i128 },
    RedeemVoucher {
        vendor: Address,
        beneficiary_wallet: Address,
        disaster_id: u64,
        category: Symbol,
        voucher_amount: i128,
        payout_amount: i128,
        now: u64,
    },
}

} // verus!
