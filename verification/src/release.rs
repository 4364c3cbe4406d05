//! Deposit accounting and the release of funds: what was confirmed as
//! deposited for an escrow, the fee on a release, and the milestone and
//! escrow states that follow from releases, completions and disputes.

use vstd::prelude::*;
use crate::amount::parse_amount;
use crate::contract::EscrowContract;
use crate::events::{
    record, CounterpartyNotified, EscrowStatusChanged, Event, MilestoneDisputed, MilestoneReleased,
    MilestoneStatusChanged,
};
use crate::invariants::{
    consistent, extends, law_complete_milestone_keeps, law_complete_milestone_task_keeps,
    law_completion_check_keeps, law_dispute_milestone_keeps, law_notify_counterparty_keeps,
    law_notify_deposit_keeps, law_release_milestone_keeps,
};
use crate::ledger::find_milestone;
use crate::model::{
    all_completed, complete_milestone_spec, complete_milestone_task_spec, completes,
    completion_check_spec, deposit_of, deposit_precheck_spec, dispute_id_spec,
    dispute_milestone_spec, fee_spec, fee_transfer_spec, milestone_error, milestone_position,
    notification_id_spec, notify_counterparty_spec, notify_deposit_spec, payout_spec,
    release_amount_spec, release_milestone_spec, release_precheck_spec, tx_hash_spec,
};
use crate::text::{decimal, numbered};
use crate::types::{
    Address, Balance, DisputeResponse, Env, EscrowData, EscrowError, EscrowStatus, Evidence,
    Milestone, MilestoneStatus, NotificationResponse, Release, ReleaseResponse, TokenTransfer,
    TransactionStatus, MAX_FEE_BPS,
};

verus! {

/// A milestone amount parted into the platform fee and what is paid out.
#[derive(Clone, Copy, Debug, PartialEq, Eq)]
pub struct FeeSplit {
    pub fee: Balance,
    pub release_amount: Balance,
}

/// The fee never exceeds the amount, so the two parts of a release add up
/// to the amount exactly.
pub proof fn law_fee_conservation(amount: nat, fee_bps: nat)
    requires
        fee_bps <= MAX_FEE_BPS,
    ensures
        fee_spec(amount, fee_bps) <= amount,
        fee_spec(amount, fee_bps) + (amount - fee_spec(amount, fee_bps)) == amount,
{
    assert(amount * fee_bps <= amount * 10_000) by (nonlinear_arith)
        requires
            fee_bps <= 10_000,
    ;
}

/// Parts `amount` into the fee at `fee_bps` basis points, rounded down, and
/// the rest. A fee of more than 10,000 basis points is refused with
/// `FeeTooHigh`; an `amount * fee_bps` over `u128::MAX` is refused with
/// `ArithmeticOverflow`.
pub fn split_fee(amount: Balance, fee_bps: u16) -> (r: Result<FeeSplit, EscrowError>)
    ensures
        match r {
            Ok(s) => {
                &&& fee_bps <= MAX_FEE_BPS
                &&& amount * fee_bps <= u128::MAX
                &&& s.fee == fee_spec(amount as nat, fee_bps as nat)
                &&& s.fee + s.release_amount == amount
            },
            Err(e) => if fee_bps > MAX_FEE_BPS {
                e == EscrowError::FeeTooHigh
            } else {
                e == EscrowError::ArithmeticOverflow && amount * fee_bps > u128::MAX
            },
        },
{
    if fee_bps > MAX_FEE_BPS {
        return Err(EscrowError::FeeTooHigh);
    }
    let product = match amount.checked_mul(fee_bps as u128) {
        Some(p) => p,
        None => {
            return Err(EscrowError::ArithmeticOverflow);
        },
    };
    let fee = product / (MAX_FEE_BPS as u128);
    proof {
        law_fee_conservation(amount as nat, fee_bps as nat);
    }
    Ok(FeeSplit { fee, release_amount: amount - fee })
}

/// Whether every milestone is `Completed`.
fn all_milestones_completed(ms: &Vec<Milestone>) -> (r: bool)
    ensures
        r == all_completed(ms.deep_view()),
{
    let mut i: usize = 0;
    while i < ms.len()
        invariant
            i <= ms@.len(),
            forall|j: int|
                0 <= j < i ==> (#[trigger] ms.deep_view()[j]).status == MilestoneStatus::Completed,
        decreases ms@.len() - i,
    {
        if ms[i].status != MilestoneStatus::Completed {
            proof {
                assert(ms.deep_view()[i as int].status != MilestoneStatus::Completed);
            }
            return false;
        }
        i = i + 1;
    }
    true
}

impl EscrowContract {
    /// The escrow `escrow_id` and the place of its milestone `milestone_id`,
    /// for a call that only a party to the escrow may make while the ledger
    /// is not paused.
    fn load_milestone(&self, caller: Address, escrow_id: &String, milestone_id: &str) -> (r:
        Result<(EscrowData, usize), EscrowError>)
        ensures
            match milestone_error(self@, caller, escrow_id@, milestone_id@) {
                Some(e) => r == Err::<(EscrowData, usize), EscrowError>(e),
                None => {
                    &&& r is Ok
                    &&& r->Ok_0.0@ == self@.escrows[escrow_id@]
                    &&& r->Ok_0.1 < r->Ok_0.0.milestones@.len()
                    &&& Some(r->Ok_0.1 as int) == milestone_position(
                        self@.escrows[escrow_id@].milestones,
                        milestone_id@,
                    )
                },
            },
    {
        let escrow = match self.load_for_party(caller, escrow_id) {
            Ok(e) => e,
            Err(e) => {
                return Err(e);
            },
        };
        match find_milestone(&escrow.milestones, milestone_id) {
            Some(i) => Ok((escrow, i)),
            None => Err(EscrowError::MilestoneNotFound),
        }
    }

    /// The cumulative deposit recorded for `escrow_id`.
    fn deposit(&self, escrow_id: &String) -> (r: Balance)
        ensures
            r == deposit_of(self@.escrow_deposits, escrow_id@),
    {
        match self.escrow_deposits.get(escrow_id) {
            Some(d) => *d,
            None => 0,
        }
    }

    /// What `notify_deposit` finds before it looks at the custody balance:
    /// the cumulative total that the deposit would bring, or the first
    /// error. The total is what the custody balance has to cover.
    pub fn deposit_precheck(&self, escrow_id: &String, amount_str: &str) -> (r: Result<
        Balance,
        EscrowError,
    >)
        ensures
            r == deposit_precheck_spec(self@, escrow_id@, amount_str@),
    {
        if self.paused {
            return Err(EscrowError::ContractPaused);
        }
        if !self.escrows.contains(escrow_id) {
            return Err(EscrowError::EscrowNotFound);
        }
        let amount = match parse_amount(amount_str, self.token_decimals) {
            Ok(a) => a,
            Err(_) => {
                return Err(EscrowError::InvalidAmount);
            },
        };
        match self.deposit(escrow_id).checked_add(amount) {
            Some(total) => Ok(total),
            None => Err(EscrowError::ArithmeticOverflow),
        }
    }

    /// Records a deposit of `amount_str` for the escrow `escrow_id` and
    /// returns the new cumulative total. `custody_balance` is what the
    /// token ledger reports as held in custody; it must cover the new
    /// total.
    ///
    /// Refused, with nothing changed, for the first of these that holds:
    /// the ledger is paused (`ContractPaused`); the escrow is unknown
    /// (`EscrowNotFound`); the amount is no amount (`InvalidAmount`); the
    /// new total does not fit in 128 bits (`ArithmeticOverflow`); the
    /// custody balance is less than the new total (`InsufficientBalance`).
    /// The custody balance is looked at last, so that it need not be asked
    /// for where `deposit_precheck` fails.
    pub fn notify_deposit(
        &mut self,
        escrow_id: String,
        amount_str: String,
        custody_balance: Balance,
    ) -> (r: Result<Balance, EscrowError>)
        ensures
            match notify_deposit_spec(old(self)@, escrow_id@, amount_str@, custody_balance) {
                Ok(post) => {
                    &&& r is Ok
                    &&& final(self)@ == post
                    &&& r->Ok_0 == post.escrow_deposits[escrow_id@]
                },
                Err(e) => r == Err::<Balance, EscrowError>(e) && *final(self) == *old(self),
            },
            consistent(old(self)@) ==> consistent(final(self)@) && extends(
                old(self)@,
                final(self)@,
            ),
    {
        proof {
            if consistent(old(self)@) && notify_deposit_spec(
                old(self)@,
                escrow_id@,
                amount_str@,
                custody_balance,
            ) is Ok {
                law_notify_deposit_keeps(old(self)@, escrow_id@, amount_str@, custody_balance);
            }
        }
        let new_total = match self.deposit_precheck(&escrow_id, amount_str.as_str()) {
            Ok(total) => total,
            Err(e) => {
                return Err(e);
            },
        };
        if custody_balance < new_total {
            return Err(EscrowError::InsufficientBalance);
        }
        self.escrow_deposits.insert(escrow_id, new_total);
        Ok(new_total)
    }

    /// The counterparty reports a milestone in progress as done: it becomes
    /// `Done` and is stamped with the time of the call; a note and evidence
    /// are stored where they are given. The change is recorded.
    ///
    /// Refused, with nothing changed: while the ledger is paused; for an
    /// unknown escrow; for a caller who is not the counterparty; for an
    /// unknown milestone; for a milestone that is not `InProgress`.
    pub fn complete_milestone_task(
        &mut self,
        env: Env,
        escrow_id: String,
        milestone_id: String,
        completion_note: Option<String>,
        evidence_file: Option<Vec<Evidence>>,
    ) -> (r: Result<(), EscrowError>)
        ensures
            match complete_milestone_task_spec(
                old(self)@,
                env,
                escrow_id@,
                milestone_id@,
                completion_note.deep_view(),
                evidence_file.deep_view(),
            ) {
                Ok(post) => r is Ok && final(self)@ == post,
                Err(e) => r == Err::<(), EscrowError>(e) && *final(self) == *old(self),
            },
            consistent(old(self)@) ==> consistent(final(self)@) && extends(
                old(self)@,
                final(self)@,
            ),
    {
        proof {
            if consistent(old(self)@) && complete_milestone_task_spec(
                old(self)@,
                env,
                escrow_id@,
                milestone_id@,
                completion_note.deep_view(),
                evidence_file.deep_view(),
            ) is Ok {
                law_complete_milestone_task_keeps(
                    old(self)@,
                    env,
                    escrow_id@,
                    milestone_id@,
                    completion_note.deep_view(),
                    evidence_file.deep_view(),
                );
            }
        }
        if self.paused {
            return Err(EscrowError::ContractPaused);
        }
        let mut escrow = match self.escrows.get(&escrow_id) {
            Some(e) => e.clone(),
            None => {
                return Err(EscrowError::EscrowNotFound);
            },
        };
        if env.caller != escrow.counterparty_address {
            return Err(EscrowError::Unauthorized);
        }
        let index = match find_milestone(&escrow.milestones, milestone_id.as_str()) {
            Some(i) => i,
            None => {
                return Err(EscrowError::MilestoneNotFound);
            },
        };
        if escrow.milestones[index].status != MilestoneStatus::InProgress {
            return Err(EscrowError::InvalidStatus);
        }
        let ghost before = escrow@;
        escrow.milestones[index].status = MilestoneStatus::Done;
        escrow.milestones[index].completed_at = Some(env.block_timestamp);
        if completion_note.is_some() {
            escrow.milestones[index].completion_note = completion_note;
        }
        if evidence_file.is_some() {
            escrow.milestones[index].evidence_file = evidence_file;
        }
        proof {
            assert(escrow@.milestones =~= before.milestones.update(
                index as int,
                escrow.milestones@[index as int]@,
            ));
        }
        let event = Event::MilestoneStatusChanged(
            MilestoneStatusChanged {
                escrow_id: escrow_id.clone(),
                milestone_id,
                old_status: MilestoneStatus::InProgress,
                new_status: MilestoneStatus::Done,
            },
        );
        self.store(escrow_id, escrow, event);
        Ok(())
    }

    /// The checks of a release that come before the custody balance is
    /// looked at. Where they pass: the escrow, the place of the milestone,
    /// and the fee and the payout that part its amount.
    fn release_checks(&self, env: Env, escrow_id: &String, milestone_id: &str) -> (r: Result<
        (EscrowData, usize, FeeSplit),
        EscrowError,
    >)
        ensures
            match release_precheck_spec(self@, env, escrow_id@, milestone_id@) {
                Err(e) => r == Err::<(EscrowData, usize, FeeSplit), EscrowError>(e),
                Ok(amount) => {
                    &&& r is Ok
                    &&& r->Ok_0.0@ == self@.escrows[escrow_id@]
                    &&& r->Ok_0.1 < r->Ok_0.0.milestones@.len()
                    &&& Some(r->Ok_0.1 as int) == milestone_position(
                        self@.escrows[escrow_id@].milestones,
                        milestone_id@,
                    )
                    &&& r->Ok_0.2.fee == fee_spec(amount as nat, self@.fee_bps as nat)
                    &&& r->Ok_0.2.fee + r->Ok_0.2.release_amount == amount
                },
            },
    {
        let (escrow, index) = match self.load_milestone(env.caller, escrow_id, milestone_id) {
            Ok(found) => found,
            Err(e) => {
                return Err(e);
            },
        };
        let status = escrow.milestones[index].status;
        if status == MilestoneStatus::Funded || status == MilestoneStatus::Completed {
            return Err(EscrowError::InvalidStatus);
        }
        let amount = match parse_amount(
            escrow.milestones[index].amount.as_str(),
            self.token_decimals,
        ) {
            Ok(a) => a,
            Err(_) => {
                return Err(EscrowError::InvalidAmount);
            },
        };
        let split = match split_fee(amount, self.fee_bps) {
            Ok(s) => s,
            Err(e) => {
                return Err(e);
            },
        };
        if self.deposit(escrow_id) < amount {
            return Err(EscrowError::InsufficientBalance);
        }
        if amount > u128::MAX - self.total_volume {
            return Err(EscrowError::ArithmeticOverflow);
        }
        Ok((escrow, index, split))
    }

    /// What `release_milestone` finds before it looks at the custody
    /// balance: the amount of the milestone, which the custody balance has
    /// to cover, or the first error.
    pub fn release_precheck(
        &self,
        env: Env,
        escrow_id: &String,
        milestone_id: &str,
    ) -> (r: Result<Balance, EscrowError>)
        ensures
            r == release_precheck_spec(self@, env, escrow_id@, milestone_id@),
    {
        match self.release_checks(env, escrow_id, milestone_id) {
            Ok(found) => Ok(found.2.fee + found.2.release_amount),
            Err(e) => Err(e),
        }
    }

    /// Releases the funds of a milestone. `custody_balance` is what the
    /// token ledger reports as held in custody.
    ///
    /// Where the release is not refused, everything the ledger keeps is
    /// settled before the call returns: the milestone is `Funded`, the
    /// volume has grown by the amount, the deposit of the escrow has shrunk
    /// by it, and the release is recorded. What is returned are the
    /// transfers that are owed from then on, the payout to the counterparty
    /// and, where the fee is not zero, the fee to the fee account; together
    /// they come to the amount exactly. A milestone is released at most
    /// once: one that is `Funded` or `Completed` is not released again.
    ///
    /// Refused, with nothing changed, for the first of these that holds:
    /// the ledger is paused (`ContractPaused`); the escrow is unknown
    /// (`EscrowNotFound`); the caller is no party to it (`Unauthorized`);
    /// the milestone is unknown (`MilestoneNotFound`); the milestone is
    /// `Funded` or `Completed` already (`InvalidStatus`); its amount is no
    /// amount (`InvalidAmount`); the fee is over 10,000 basis points
    /// (`FeeTooHigh`); the fee cannot be computed in 128 bits
    /// (`ArithmeticOverflow`); the deposit of the escrow is less than the
    /// amount (`InsufficientBalance`); the volume would exceed 128 bits
    /// (`ArithmeticOverflow`); the custody balance is less than the amount
    /// (`InsufficientBalance`). The custody balance is looked at last, so
    /// that it need not be asked for where `release_precheck` fails.
    pub fn release_milestone(
        &mut self,
        env: Env,
        escrow_id: String,
        milestone_id: String,
        custody_balance: Balance,
    ) -> (r: Result<Release, EscrowError>)
        ensures
            match release_milestone_spec(
                old(self)@,
                env,
                escrow_id@,
                milestone_id@,
                custody_balance,
            ) {
                Ok(post) => {
                    &&& r is Ok
                    &&& final(self)@ == post
                    &&& r->Ok_0.payout == payout_spec(old(self)@, escrow_id@, milestone_id@)
                    &&& r->Ok_0.fee == fee_transfer_spec(old(self)@, escrow_id@, milestone_id@)
                    &&& r->Ok_0.payout.value + (match r->Ok_0.fee {
                        Some(t) => t.value,
                        None => 0,
                    }) == release_amount_spec(old(self)@, escrow_id@, milestone_id@)
                    &&& r->Ok_0.response.transaction_hash@ == tx_hash_spec(env.block_timestamp)
                    &&& r->Ok_0.response.status@ == "success"@
                    &&& r->Ok_0.response.message@ == "Milestone funds released successfully"@
                    &&& r->Ok_0.response.receiver_account_id
                        == old(self)@.escrows[escrow_id@].counterparty_address
                    &&& r->Ok_0.response.payer_account_id
                        == old(self)@.escrows[escrow_id@].creator_address
                },
                Err(e) => r == Err::<Release, EscrowError>(e) && *final(self) == *old(self),
            },
            consistent(old(self)@) ==> consistent(final(self)@) && extends(
                old(self)@,
                final(self)@,
            ),
    {
        proof {
            if consistent(old(self)@) && release_milestone_spec(
                old(self)@,
                env,
                escrow_id@,
                milestone_id@,
                custody_balance,
            ) is Ok {
                law_release_milestone_keeps(
                    old(self)@,
                    env,
                    escrow_id@,
                    milestone_id@,
                    custody_balance,
                );
            }
        }
        let (mut escrow, index, split) = match self.release_checks(
            env,
            &escrow_id,
            milestone_id.as_str(),
        ) {
            Ok(found) => found,
            Err(e) => {
                return Err(e);
            },
        };
        let amount = split.fee + split.release_amount;
        let amount_str = escrow.milestones[index].amount.clone();
        let escrow_available = self.deposit(&escrow_id);
        if custody_balance < amount {
            return Err(EscrowError::InsufficientBalance);
        }
        let total_volume = self.total_volume + amount;
        let ghost before = escrow@;
        escrow.milestones[index].status = MilestoneStatus::Funded;
        proof {
            assert(escrow@.milestones =~= before.milestones.update(
                index as int,
                escrow.milestones@[index as int]@,
            ));
        }
        let receiver = escrow.counterparty_address;
        let payer = escrow.creator_address;
        let tx_hash = numbered("tx_", env.block_timestamp);
        let event = Event::MilestoneReleased(
            MilestoneReleased {
                escrow_id: escrow_id.clone(),
                milestone_id,
                receiver_account_id: receiver,
                payer_account_id: payer,
                amount: amount_str,
                transaction_hash: tx_hash.clone(),
            },
        );
        self.total_volume = total_volume;
        self.escrow_deposits.insert(escrow_id.clone(), escrow_available - amount);
        self.store(escrow_id, escrow, event);
        let fee = if split.fee > 0 {
            Some(TokenTransfer { token: self.usdt_token, to: self.fee_account, value: split.fee })
        } else {
            None
        };
        Ok(
            Release {
                response: ReleaseResponse {
                    transaction_hash: tx_hash,
                    status: String::from_str("success"),
                    message: String::from_str("Milestone funds released successfully"),
                    receiver_account_id: receiver,
                    payer_account_id: payer,
                },
                payout: TokenTransfer {
                    token: self.usdt_token,
                    to: receiver,
                    value: split.release_amount,
                },
                fee,
            },
        )
    }

    /// Promotes the escrow `escrow_id` to `Completed` where it is not yet
    /// `Completed`, has at least one milestone, and all its milestones are
    /// `Completed`; the promotion is recorded. Returns whether it promoted.
    /// An unknown escrow is refused.
    pub fn check_and_update_escrow_completion(&mut self, escrow_id: String) -> (r: Result<
        bool,
        EscrowError,
    >)
        ensures
            final(self)@ == completion_check_spec(old(self)@, escrow_id@),
            match r {
                Ok(promoted) => {
                    &&& old(self)@.escrows.contains_key(escrow_id@)
                    &&& promoted == completes(old(self)@.escrows[escrow_id@])
                },
                Err(e) => {
                    &&& e == EscrowError::EscrowNotFound
                    &&& !old(self)@.escrows.contains_key(escrow_id@)
                    &&& *final(self) == *old(self)
                },
            },
            consistent(old(self)@) ==> consistent(final(self)@) && extends(
                old(self)@,
                final(self)@,
            ),
    {
        proof {
            if consistent(old(self)@) {
                law_completion_check_keeps(old(self)@, escrow_id@);
            }
        }
        let mut escrow = match self.escrows.get(&escrow_id) {
            Some(e) => e.clone(),
            None => {
                return Err(EscrowError::EscrowNotFound);
            },
        };
        if escrow.status == EscrowStatus::Completed {
            return Ok(false);
        }
        if all_milestones_completed(&escrow.milestones) && escrow.milestones.len() > 0 {
            let old_status = escrow.status;
            escrow.status = EscrowStatus::Completed;
            let event = Event::EscrowStatusChanged(
                EscrowStatusChanged {
                    escrow_id: escrow_id.clone(),
                    old_status,
                    new_status: EscrowStatus::Completed,
                    transaction_hash: None,
                },
            );
            self.store(escrow_id, escrow, event);
            return Ok(true);
        }
        Ok(false)
    }

    /// Completes a funded milestone: it becomes `Completed`, which is
    /// recorded, and the escrow is promoted to `Completed` where that was
    /// its last milestone to complete.
    ///
    /// Refused, with nothing changed: while the ledger is paused; for an
    /// unknown escrow; for a caller who is no party to it; for an unknown
    /// milestone; for a milestone that is not `Funded`.
    pub fn complete_milestone(&mut self, env: Env, escrow_id: String, milestone_id: String) -> (r:
        Result<(), EscrowError>)
        ensures
            match complete_milestone_spec(old(self)@, env, escrow_id@, milestone_id@) {
                Ok(post) => r is Ok && final(self)@ == post,
                Err(e) => r == Err::<(), EscrowError>(e) && *final(self) == *old(self),
            },
            consistent(old(self)@) ==> consistent(final(self)@) && extends(
                old(self)@,
                final(self)@,
            ),
    {
        proof {
            if consistent(old(self)@) && complete_milestone_spec(
                old(self)@,
                env,
                escrow_id@,
                milestone_id@,
            ) is Ok {
                law_complete_milestone_keeps(old(self)@, env, escrow_id@, milestone_id@);
            }
        }
        let (mut escrow, index) = match self.load_milestone(
            env.caller,
            &escrow_id,
            milestone_id.as_str(),
        ) {
            Ok(found) => found,
            Err(e) => {
                return Err(e);
            },
        };
        let old_status = escrow.milestones[index].status;
        if old_status != MilestoneStatus::Funded {
            return Err(EscrowError::InvalidStatus);
        }
        let ghost before = escrow@;
        escrow.milestones[index].status = MilestoneStatus::Completed;
        proof {
            assert(escrow@.milestones =~= before.milestones.update(
                index as int,
                escrow.milestones@[index as int]@,
            ));
        }
        let event = Event::MilestoneStatusChanged(
            MilestoneStatusChanged {
                escrow_id: escrow_id.clone(),
                milestone_id,
                old_status,
                new_status: MilestoneStatus::Completed,
            },
        );
        self.store(escrow_id.clone(), escrow, event);
        let _ = self.check_and_update_escrow_completion(escrow_id);
        Ok(())
    }

    /// Files a dispute on a milestone, whatever its state: it becomes
    /// `Disputed`, with the reason and the caller as the filer, and the
    /// dispute is recorded. Returns the dispute's id, `dispute_`, the escrow
    /// id, `_` and the milestone id.
    ///
    /// Refused, with nothing changed: while the ledger is paused; for an
    /// unknown escrow; for a caller who is no party to it; for an unknown
    /// milestone.
    pub fn dispute_milestone(
        &mut self,
        env: Env,
        escrow_id: String,
        milestone_id: String,
        reason: String,
    ) -> (r: Result<DisputeResponse, EscrowError>)
        ensures
            match dispute_milestone_spec(old(self)@, env, escrow_id@, milestone_id@, reason@) {
                Ok(post) => {
                    &&& r is Ok
                    &&& final(self)@ == post
                    &&& r->Ok_0.dispute_id@ == dispute_id_spec(escrow_id@, milestone_id@)
                    &&& r->Ok_0.status@ == "disputed"@
                    &&& r->Ok_0.message@ == "Milestone has been disputed"@
                },
                Err(e) => r == Err::<DisputeResponse, EscrowError>(e) && *final(self) == *old(
                    self,
                ),
            },
            consistent(old(self)@) ==> consistent(final(self)@) && extends(
                old(self)@,
                final(self)@,
            ),
    {
        proof {
            if consistent(old(self)@) && dispute_milestone_spec(
                old(self)@,
                env,
                escrow_id@,
                milestone_id@,
                reason@,
            ) is Ok {
                law_dispute_milestone_keeps(old(self)@, env, escrow_id@, milestone_id@, reason@);
            }
        }
        let (mut escrow, index) = match self.load_milestone(
            env.caller,
            &escrow_id,
            milestone_id.as_str(),
        ) {
            Ok(found) => found,
            Err(e) => {
                return Err(e);
            },
        };
        let ghost before = escrow@;
        escrow.milestones[index].status = MilestoneStatus::Disputed;
        escrow.milestones[index].dispute_reason = Some(reason.clone());
        escrow.milestones[index].dispute_filed_by = Some(env.caller);
        proof {
            assert(escrow@.milestones =~= before.milestones.update(
                index as int,
                escrow.milestones@[index as int]@,
            ));
        }
        let mut dispute_id = String::from_str("dispute_");
        dispute_id.append(escrow_id.as_str());
        dispute_id.append("_");
        dispute_id.append(milestone_id.as_str());
        let event = Event::MilestoneDisputed(
            MilestoneDisputed {
                escrow_id: escrow_id.clone(),
                milestone_id,
                filed_by: env.caller,
                reason,
                dispute_id: dispute_id.clone(),
            },
        );
        self.store(escrow_id, escrow, event);
        Ok(
            DisputeResponse {
                dispute_id,
                status: String::from_str("disputed"),
                message: String::from_str("Milestone has been disputed"),
            },
        )
    }

    /// Records a notification from the caller to `recipient_account_id`
    /// about an escrow, and returns its id: `notif_`, the escrow id, `_` and
    /// the time of the call.
    ///
    /// Refused, with nothing changed: while the ledger is paused; for an
    /// unknown escrow; for a caller who is no party to it.
    pub fn notify_counterparty(
        &mut self,
        env: Env,
        escrow_id: String,
        notification_type: String,
        recipient_account_id: Address,
        _message: Option<String>,
        _notification_kind: Option<String>,
    ) -> (r: Result<NotificationResponse, EscrowError>)
        ensures
            match notify_counterparty_spec(
                old(self)@,
                env,
                escrow_id@,
                notification_type@,
                recipient_account_id,
            ) {
                Ok(post) => {
                    &&& r is Ok
                    &&& final(self)@ == post
                    &&& r->Ok_0.notification_id@ == notification_id_spec(
                        escrow_id@,
                        env.block_timestamp,
                    )
                    &&& r->Ok_0.status@ == "sent"@
                    &&& r->Ok_0.message@ == "Notification sent successfully"@
                },
                Err(e) => r == Err::<NotificationResponse, EscrowError>(e) && *final(self) == *old(
                    self,
                ),
            },
            consistent(old(self)@) ==> consistent(final(self)@) && extends(
                old(self)@,
                final(self)@,
            ),
    {
        proof {
            if consistent(old(self)@) && notify_counterparty_spec(
                old(self)@,
                env,
                escrow_id@,
                notification_type@,
                recipient_account_id,
            ) is Ok {
                law_notify_counterparty_keeps(
                    old(self)@,
                    env,
                    escrow_id@,
                    notification_type@,
                    recipient_account_id,
                );
            }
        }
        match self.load_for_party(env.caller, &escrow_id) {
            Ok(_) => {},
            Err(e) => {
                return Err(e);
            },
        }
        let mut notification_id = String::from_str("notif_");
        notification_id.append(escrow_id.as_str());
        notification_id.append("_");
        let stamp = decimal(env.block_timestamp);
        notification_id.append(stamp.as_str());
        record(
            &mut self.events,
            Event::CounterpartyNotified(
                CounterpartyNotified {
                    escrow_id,
                    notification_type,
                    sender_account_id: env.caller,
                    recipient_account_id,
                    notification_id: notification_id.clone(),
                },
            ),
        );
        Ok(
            NotificationResponse {
                notification_id,
                status: String::from_str("sent"),
                message: String::from_str("Notification sent successfully"),
            },
        )
    }

    /// The status of a transaction. Confirmations are not tracked: every
    /// transaction is reported as confirmed 12 times, in the block of the
    /// call.
    pub fn check_transaction_status(&self, env: Env, transaction_hash: String) -> (r: Result<
        TransactionStatus,
        EscrowError,
    >)
        ensures
            r is Ok,
            r->Ok_0.transaction_hash@ == transaction_hash@,
            r->Ok_0.status@ == "confirmed"@,
            r->Ok_0.confirmations == 12,
            r->Ok_0.block_number == env.block_number,
    {
        Ok(
            TransactionStatus {
                transaction_hash,
                status: String::from_str("confirmed"),
                confirmations: 12,
                block_number: env.block_number as u64,
            },
        )
    }
}

} // verus!
