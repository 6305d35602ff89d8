//! Sequences of requests: the state they lead to, and what they did to
//! vouchers, vaults, roles and registrations along the way.

use vstd::prelude::*;
use crate::model::ReliefChainView;
use crate::types::{Address, Request};

verus! {

/// The admin named by the first initialization request in `requests`.
pub open spec fn first_initialize(requests: Seq<Request>) -> Option<Address>
    decreases requests.len(),
{
    if requests.len() == 0 {
        None
    } else {
        match first_initialize(requests.drop_last()) {
            Some(a) => Some(a),
            None => match requests.last() {
                Request::Initialize { admin } => Some(admin),
                _ => None,
            },
        }
    }
}

/// Whether `request` asks to grant the verifier role to `wallet`.
pub open spec fn grants_verifier(request: Request, wallet: Seq<char>) -> bool {
    request matches Request::AddVerifier { verifier, .. } && verifier@ == wallet
}

/// Whether `request` asks to activate disaster `disaster_id`.
pub open spec fn activates(request: Request, disaster_id: u64) -> bool {
    request matches Request::ActivateDisaster { disaster_id: d, .. } && d == disaster_id
}

/// Whether `request` asks to approve `vendor`.
pub open spec fn approves(request: Request, vendor: Seq<char>) -> bool {
    request matches Request::ApproveVendor { vendor: v, .. } && v@ == vendor
}

impl ReliefChainView {
    /// The state after `requests`, applied in order.
    pub open spec fn run(self, requests: Seq<Request>) -> Self
        decreases requests.len(),
    {
        if requests.len() == 0 {
            self
        } else {
            self.run(requests.drop_last()).step(requests.last()).0
        }
    }

    /// Whether every request of `requests` stays within the machine's
    /// integer ranges where it is applied.
    pub open spec fn admissible_run(self, requests: Seq<Request>) -> bool
        decreases requests.len(),
    {
        requests.len() == 0 || (self.admissible_run(requests.drop_last()) && self.run(
            requests.drop_last(),
        ).admissible(requests.last()))
    }

    /// What `request` adds to the voucher under `key`: the amount of a
    /// successful issue for that beneficiary and category.
    pub open spec fn issue_credit(self, request: Request, key: (u64, Seq<char>, Seq<char>)) -> int {
        match request {
            Request::IssueVoucher { verifier, beneficiary_id, category, amount, expiry, now } => {
                let ben = self.beneficiaries[beneficiary_id];
                if self.issue_voucher_refusal(verifier, beneficiary_id, amount, expiry, now) is None
                    && key == (ben.disaster_id, ben.wallet@, category@) {
                    amount as int
                } else {
                    0
                }
            },
            _ => 0,
        }
    }

    /// What `request` takes off the voucher under `key`: the amount of a
    /// successful redemption of that voucher.
    pub open spec fn redeem_debit(self, request: Request, key: (u64, Seq<char>, Seq<char>)) -> int {
        match request {
            Request::RedeemVoucher {
                vendor,
                beneficiary_wallet,
                disaster_id,
                category,
                voucher_amount,
                payout_amount,
                now,
            } => if self.redeem_refusal(
                vendor,
                beneficiary_wallet,
                disaster_id,
                category,
                voucher_amount,
                payout_amount,
                now,
            ) is None && key == (disaster_id, beneficiary_wallet@, category@) {
                voucher_amount as int
            } else {
                0
            },
            _ => 0,
        }
    }

    /// What `request` adds to the vault of `disaster_id`: a successful deposit.
    pub open spec fn deposit_credit(self, request: Request, disaster_id: u64) -> int {
        match request {
            Request::DepositSimulated { admin, disaster_id: d, amount } => if self.deposit_refusal(
                admin,
                d,
                amount,
            ) is None && d == disaster_id {
                amount as int
            } else {
                0
            },
            _ => 0,
        }
    }

    /// What `request` pays out of the vault of `disaster_id`: the payout of a
    /// successful redemption.
    pub open spec fn payout_debit(self, request: Request, disaster_id: u64) -> int {
        match request {
            Request::RedeemVoucher {
                vendor,
                beneficiary_wallet,
                disaster_id: d,
                category,
                voucher_amount,
                payout_amount,
                now,
            } => if self.redeem_refusal(
                vendor,
                beneficiary_wallet,
                d,
                category,
                voucher_amount,
                payout_amount,
                now,
            ) is None && d == disaster_id {
                payout_amount as int
            } else {
                0
            },
            _ => 0,
        }
    }

    /// The total successfully issued on the voucher under `key` by `requests`.
    pub open spec fn issued(self, requests: Seq<Request>, key: (u64, Seq<char>, Seq<char>)) -> int
        decreases requests.len(),
    {
        if requests.len() == 0 {
            0
        } else {
            self.issued(requests.drop_last(), key) + self.run(requests.drop_last()).issue_credit(
                requests.last(),
                key,
            )
        }
    }

    /// The total successfully redeemed from the voucher under `key` by `requests`.
    pub open spec fn redeemed(self, requests: Seq<Request>, key: (u64, Seq<char>, Seq<char>)) -> int
        decreases requests.len(),
    {
        if requests.len() == 0 {
            0
        } else {
            self.redeemed(requests.drop_last(), key) + self.run(requests.drop_last()).redeem_debit(
                requests.last(),
                key,
            )
        }
    }

    /// The total successfully deposited for `disaster_id` by `requests`.
    pub open spec fn deposited(self, requests: Seq<Request>, disaster_id: u64) -> int
        decreases requests.len(),
    {
        if requests.len() == 0 {
            0
        } else {
            self.deposited(requests.drop_last(), disaster_id) + self.run(
                requests.drop_last(),
            ).deposit_credit(requests.last(), disaster_id)
        }
    }

    /// The total paid out of the vault of `disaster_id` by `requests`.
    pub open spec fn paid_out(self, requests: Seq<Request>, disaster_id: u64) -> int
        decreases requests.len(),
    {
        if requests.len() == 0 {
            0
        } else {
            self.paid_out(requests.drop_last(), disaster_id) + self.run(
                requests.drop_last(),
            ).payout_debit(requests.last(), disaster_id)
        }
    }

    /// The verifier flag that `request` sets for `wallet`, if it succeeds in
    /// setting one.
    pub open spec fn role_change(self, request: Request, wallet: Seq<char>) -> Option<bool> {
        match request {
            Request::AddVerifier { admin, verifier } => if self.admin_refusal(admin@) is None
                && verifier@ == wallet {
                Some(true)
            } else {
                None
            },
            Request::RemoveVerifier { admin, verifier } => if self.admin_refusal(admin@) is None
                && verifier@ == wallet {
                Some(false)
            } else {
                None
            },
            _ => None,
        }
    }

    /// The verifier flag that the last successful grant or revocation for
    /// `wallet` in `requests` set, if any.
    pub open spec fn last_role_change(self, requests: Seq<Request>, wallet: Seq<char>) -> Option<bool>
        decreases requests.len(),
    {
        if requests.len() == 0 {
            None
        } else {
            match self.run(requests.drop_last()).role_change(requests.last(), wallet) {
                Some(flag) => Some(flag),
                None => self.last_role_change(requests.drop_last(), wallet),
            }
        }
    }

    /// Whether `request` successfully registers `wallet` for `disaster_id`.
    pub open spec fn registers(self, request: Request, disaster_id: u64, wallet: Seq<char>) -> bool {
        match request {
            Request::RegisterBeneficiary { verifier, disaster_id: d, wallet: w, .. } => self.register_beneficiary_refusal(
                verifier,
                d,
                w,
            ) is None && d == disaster_id && w@ == wallet,
            _ => false,
        }
    }

    /// Whether some request of `requests` successfully registered `wallet`
    /// for `disaster_id`.
    pub open spec fn registered(self, requests: Seq<Request>, disaster_id: u64, wallet: Seq<char>) -> bool
        decreases requests.len(),
    {
        requests.len() > 0 && (self.registered(requests.drop_last(), disaster_id, wallet) || self.run(
            requests.drop_last(),
        ).registers(requests.last(), disaster_id, wallet))
    }
}

} // verus!
