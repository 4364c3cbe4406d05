//! The governance engine: proposals of administrative changes, the approvals
//! of the signers, and the execution of a proposal once enough of them have
//! approved.

use vstd::prelude::*;
use crate::contract::{contains_address, find_signer, EscrowContract};
use crate::events::{
    record, AdminSignerAdded, AdminSignerRemoved, Event, ProposalApproved, ProposalCreated,
    ProposalExecuted, ThresholdChanged,
};
use crate::invariants::{
    consistent, extends, law_approve_proposal_keeps, law_execute_proposal_keeps,
    law_submit_proposal_keeps,
};
use crate::model::{
    action_error, apply_action, approve_proposal_spec, execute_proposal_spec, execute_spec,
    submit_proposal_spec,
};
use crate::storage::lemma_deep_insert;
use crate::types::{
    Address, AdminProposal, Env, EscrowError, ProposalAction, MAX_APPROVALS, MAX_FEE_BPS,
};

verus! {

impl EscrowContract {
    /// Whether `action` can be carried out in the present state: a fee of
    /// at most 10,000 basis points; a removal that leaves no fewer signers
    /// than the threshold; a threshold of at least 1 and at most the number
    /// of signers. An emergency withdrawal can never be carried out.
    pub fn check_action(&self, action: ProposalAction) -> (r: Result<(), EscrowError>)
        ensures
            r == match action_error(self@, action) {
                Some(e) => Err::<(), EscrowError>(e),
                None => Ok(()),
            },
    {
        match action {
            ProposalAction::SetFee(new_fee_bps) => {
                if new_fee_bps > MAX_FEE_BPS {
                    return Err(EscrowError::FeeTooHigh);
                }
            },
            ProposalAction::RemoveSigner(signer) => {
                let left = if contains_address(&self.admin_signers, signer) {
                    self.admin_signers.len() - 1
                } else {
                    self.admin_signers.len()
                };
                if left < self.signature_threshold as usize {
                    return Err(EscrowError::Unauthorized);
                }
            },
            ProposalAction::SetThreshold(new_threshold) => {
                if new_threshold == 0 || new_threshold as usize > self.admin_signers.len() {
                    return Err(EscrowError::Unauthorized);
                }
            },
            ProposalAction::EmergencyWithdraw(_, _) => {
                return Err(EscrowError::InvalidStatus);
            },
            _ => {},
        }
        Ok(())
    }

    /// Carries out an action that `check_action` accepts, on behalf of the
    /// creator `by` of its proposal. Adding a signer who is one already, or
    /// removing one who is none, changes nothing and records nothing.
    fn apply(&mut self, action: ProposalAction, by: Address)
        requires
            action_error(old(self)@, action) is None,
        ensures
            final(self)@ == apply_action(old(self)@, action, by),
    {
        match action {
            ProposalAction::SetFee(new_fee_bps) => {
                self.fee_bps = new_fee_bps;
            },
            ProposalAction::SetUsdtToken(new_token) => {
                self.usdt_token = new_token;
            },
            ProposalAction::SetTokenDecimals(new_decimals) => {
                self.token_decimals = new_decimals;
            },
            ProposalAction::AddSigner(new_signer) => {
                if !contains_address(&self.admin_signers, new_signer) {
                    self.admin_signers.push(new_signer);
                    record(
                        &mut self.events,
                        Event::AdminSignerAdded(
                            AdminSignerAdded { signer: new_signer, added_by: by },
                        ),
                    );
                }
            },
            ProposalAction::RemoveSigner(signer_to_remove) => {
                match find_signer(&self.admin_signers, signer_to_remove) {
                    Some(pos) => {
                        self.admin_signers.remove(pos);
                        record(
                            &mut self.events,
                            Event::AdminSignerRemoved(
                                AdminSignerRemoved { signer: signer_to_remove, removed_by: by },
                            ),
                        );
                    },
                    None => {},
                }
            },
            ProposalAction::SetThreshold(new_threshold) => {
                let old_threshold = self.signature_threshold;
                self.signature_threshold = new_threshold;
                record(
                    &mut self.events,
                    Event::ThresholdChanged(
                        ThresholdChanged { old_threshold, new_threshold, changed_by: by },
                    ),
                );
            },
            ProposalAction::PauseContract => {
                self.paused = true;
            },
            ProposalAction::UnpauseContract => {
                self.paused = false;
            },
            ProposalAction::EmergencyWithdraw(_, _) => {},
        }
    }

    /// Executes `proposal`, which is stored under `proposal_id` afterwards:
    /// its action is carried out, it is marked as executed at the time of
    /// the call, and the execution is recorded.
    ///
    /// Refused, with nothing changed: for a proposal that is executed
    /// already (`InvalidStatus`); for an action that cannot be carried out,
    /// with the error of `check_action`.
    pub(crate) fn execute_proposal_internal(
        &mut self,
        env: Env,
        proposal_id: u64,
        proposal: AdminProposal,
    ) -> (r: Result<(), EscrowError>)
        ensures
            match execute_spec(old(self)@, env, proposal_id, proposal@) {
                Ok(post) => r is Ok && final(self)@ == post,
                Err(e) => r == Err::<(), EscrowError>(e) && *final(self) == *old(self),
            },
    {
        let mut proposal = proposal;
        if proposal.executed {
            return Err(EscrowError::InvalidStatus);
        }
        match self.check_action(proposal.action) {
            Ok(_) => {},
            Err(e) => {
                return Err(e);
            },
        }
        self.apply(proposal.action, proposal.created_by);
        proposal.executed = true;
        proposal.executed_at = Some(env.block_timestamp);
        proof {
            lemma_deep_insert(self.proposals@, proposal_id, proposal);
        }
        self.proposals.insert(proposal_id, proposal);
        record(
            &mut self.events,
            Event::ProposalExecuted(ProposalExecuted { proposal_id, executed_by: env.caller }),
        );
        Ok(())
    }

    /// A signer proposes `action`. The proposal gets the next number, which
    /// is returned, and the caller as its first approval; its creation is
    /// recorded. Where one approval meets the threshold the proposal is
    /// executed at once; where that execution is refused the proposal stays
    /// as created.
    ///
    /// Refused, with nothing changed: for a caller who is no signer
    /// (`Unauthorized`); when the counter is exhausted
    /// (`ArithmeticOverflow`).
    pub fn submit_proposal(&mut self, env: Env, action: ProposalAction) -> (r: Result<
        u64,
        EscrowError,
    >)
        ensures
            match submit_proposal_spec(old(self)@, env, action) {
                Ok(post) => r == Ok::<u64, EscrowError>((old(self)@.proposal_counter + 1) as u64)
                    && final(self)@ == post,
                Err(e) => r == Err::<u64, EscrowError>(e) && *final(self) == *old(self),
            },
            consistent(old(self)@) ==> consistent(final(self)@) && extends(
                old(self)@,
                final(self)@,
            ),
    {
        proof {
            if consistent(old(self)@) && submit_proposal_spec(old(self)@, env, action) is Ok {
                law_submit_proposal_keeps(old(self)@, env, action);
            }
        }
        let caller = env.caller;
        if !contains_address(&self.admin_signers, caller) {
            return Err(EscrowError::Unauthorized);
        }
        if self.proposal_counter == u64::MAX {
            return Err(EscrowError::ArithmeticOverflow);
        }
        let proposal_id = self.proposal_counter + 1;
        let mut approvals = Vec::new();
        approvals.push(caller);
        let proposal = AdminProposal {
            id: proposal_id,
            action,
            created_by: caller,
            created_at: env.block_timestamp,
            approvals,
            executed: false,
            executed_at: None,
        };
        proof {
            assert(proposal.approvals@ =~= seq![caller]);
        }
        let stored = proposal.clone();
        proof {
            lemma_deep_insert(self.proposals@, proposal_id, stored);
        }
        self.proposal_counter = proposal_id;
        self.proposals.insert(proposal_id, stored);
        record(
            &mut self.events,
            Event::ProposalCreated(ProposalCreated { proposal_id, action, created_by: caller }),
        );
        if 1 >= self.signature_threshold {
            let _ = self.execute_proposal_internal(env, proposal_id, proposal);
        }
        Ok(proposal_id)
    }

    /// A signer approves a proposal. The approval is stored and recorded,
    /// and a proposal whose approvals then meet the threshold is executed.
    ///
    /// Refused, with nothing changed, for the first of these that holds: the
    /// caller is no signer (`Unauthorized`); the proposal is unknown
    /// (`EscrowNotFound`); it is executed already, or the caller has
    /// approved it already (`InvalidStatus`); it holds 255 approvals, so
    /// that the count of one more could not be recorded
    /// (`ArithmeticOverflow`; in a consistent ledger this does not happen);
    /// the approval would lead to an execution that is refused (the error
    /// of that execution).
    pub fn approve_proposal(&mut self, env: Env, proposal_id: u64) -> (r: Result<(), EscrowError>)
        ensures
            match approve_proposal_spec(old(self)@, env, proposal_id) {
                Ok(post) => r is Ok && final(self)@ == post,
                Err(e) => r == Err::<(), EscrowError>(e) && *final(self) == *old(self),
            },
            consistent(old(self)@) ==> consistent(final(self)@) && extends(
                old(self)@,
                final(self)@,
            ),
    {
        proof {
            if consistent(old(self)@) && approve_proposal_spec(old(self)@, env, proposal_id) is Ok {
                law_approve_proposal_keeps(old(self)@, env, proposal_id);
            }
        }
        let caller = env.caller;
        if !contains_address(&self.admin_signers, caller) {
            return Err(EscrowError::Unauthorized);
        }
        let mut proposal = match self.proposals.get(&proposal_id) {
            Some(p) => p.clone(),
            None => {
                return Err(EscrowError::EscrowNotFound);
            },
        };
        if proposal.executed {
            return Err(EscrowError::InvalidStatus);
        }
        if contains_address(&proposal.approvals, caller) {
            return Err(EscrowError::InvalidStatus);
        }
        if proposal.approvals.len() >= MAX_APPROVALS {
            return Err(EscrowError::ArithmeticOverflow);
        }
        proposal.approvals.push(caller);
        let count = proposal.approvals.len();
        let executes = count >= self.signature_threshold as usize;
        if executes {
            match self.check_action(proposal.action) {
                Ok(_) => {},
                Err(e) => {
                    return Err(e);
                },
            }
        }
        let stored = proposal.clone();
        proof {
            lemma_deep_insert(self.proposals@, proposal_id, stored);
        }
        self.proposals.insert(proposal_id, stored);
        record(
            &mut self.events,
            Event::ProposalApproved(
                ProposalApproved {
                    proposal_id,
                    approved_by: caller,
                    approvals_count: count as u8,
                },
            ),
        );
        if executes {
            let _ = self.execute_proposal_internal(env, proposal_id, proposal);
        }
        Ok(())
    }

    /// Executes a proposal whose approvals meet the threshold. Anyone may
    /// call this.
    ///
    /// Refused, with nothing changed, for the first of these that holds: the
    /// proposal is unknown (`EscrowNotFound`); it is executed already
    /// (`InvalidStatus`, whoever calls and whatever the threshold is by
    /// then); it has fewer approvals than the threshold (`Unauthorized`);
    /// its action cannot be carried out (the error of `check_action`).
    pub fn execute_proposal(&mut self, env: Env, proposal_id: u64) -> (r: Result<(), EscrowError>)
        ensures
            match execute_proposal_spec(old(self)@, env, proposal_id) {
                Ok(post) => r is Ok && final(self)@ == post,
                Err(e) => r == Err::<(), EscrowError>(e) && *final(self) == *old(self),
            },
            consistent(old(self)@) ==> consistent(final(self)@) && extends(
                old(self)@,
                final(self)@,
            ),
    {
        proof {
            if consistent(old(self)@) && execute_proposal_spec(old(self)@, env, proposal_id) is Ok {
                law_execute_proposal_keeps(old(self)@, env, proposal_id);
            }
        }
        let proposal = match self.proposals.get(&proposal_id) {
            Some(p) => p.clone(),
            None => {
                return Err(EscrowError::EscrowNotFound);
            },
        };
        if proposal.executed {
            return Err(EscrowError::InvalidStatus);
        }
        if proposal.approvals.len() < self.signature_threshold as usize {
            return Err(EscrowError::Unauthorized);
        }
        self.execute_proposal_internal(env, proposal_id, proposal)
    }

    /// Proposes to pause the ledger.
    pub fn propose_pause_contract(&mut self, env: Env) -> (r: Result<u64, EscrowError>)
        ensures
            match submit_proposal_spec(old(self)@, env, ProposalAction::PauseContract) {
                Ok(post) => r == Ok::<u64, EscrowError>((old(self)@.proposal_counter + 1) as u64)
                    && final(self)@ == post,
                Err(e) => r == Err::<u64, EscrowError>(e) && *final(self) == *old(self),
            },
            consistent(old(self)@) ==> consistent(final(self)@) && extends(
                old(self)@,
                final(self)@,
            ),
    {
        self.submit_proposal(env, ProposalAction::PauseContract)
    }

    /// Proposes to resume a paused ledger.
    pub fn propose_unpause_contract(&mut self, env: Env) -> (r: Result<u64, EscrowError>)
        ensures
            match submit_proposal_spec(old(self)@, env, ProposalAction::UnpauseContract) {
                Ok(post) => r == Ok::<u64, EscrowError>((old(self)@.proposal_counter + 1) as u64)
                    && final(self)@ == post,
                Err(e) => r == Err::<u64, EscrowError>(e) && *final(self) == *old(self),
            },
            consistent(old(self)@) ==> consistent(final(self)@) && extends(
                old(self)@,
                final(self)@,
            ),
    {
        self.submit_proposal(env, ProposalAction::UnpauseContract)
    }

    /// Proposes a new fee, in basis points.
    pub fn propose_update_fee(&mut self, env: Env, new_fee_bps: u16) -> (r: Result<
        u64,
        EscrowError,
    >)
        ensures
            match submit_proposal_spec(old(self)@, env, ProposalAction::SetFee(new_fee_bps)) {
                Ok(post) => r == Ok::<u64, EscrowError>((old(self)@.proposal_counter + 1) as u64)
                    && final(self)@ == post,
                Err(e) => r == Err::<u64, EscrowError>(e) && *final(self) == *old(self),
            },
            consistent(old(self)@) ==> consistent(final(self)@) && extends(
                old(self)@,
                final(self)@,
            ),
    {
        self.submit_proposal(env, ProposalAction::SetFee(new_fee_bps))
    }

    /// Proposes another token contract.
    pub fn propose_set_usdt_token(&mut self, env: Env, new_token_address: Address) -> (r: Result<
        u64,
        EscrowError,
    >)
        ensures
            match submit_proposal_spec(
                old(self)@,
                env,
                ProposalAction::SetUsdtToken(new_token_address),
            ) {
                Ok(post) => r == Ok::<u64, EscrowError>((old(self)@.proposal_counter + 1) as u64)
                    && final(self)@ == post,
                Err(e) => r == Err::<u64, EscrowError>(e) && *final(self) == *old(self),
            },
            consistent(old(self)@) ==> consistent(final(self)@) && extends(
                old(self)@,
                final(self)@,
            ),
    {
        self.submit_proposal(env, ProposalAction::SetUsdtToken(new_token_address))
    }

    /// Proposes another number of decimal places for the token.
    pub fn propose_set_token_decimals(&mut self, env: Env, new_token_decimals: u8) -> (r: Result<
        u64,
        EscrowError,
    >)
        ensures
            match submit_proposal_spec(
                old(self)@,
                env,
                ProposalAction::SetTokenDecimals(new_token_decimals),
            ) {
                Ok(post) => r == Ok::<u64, EscrowError>((old(self)@.proposal_counter + 1) as u64)
                    && final(self)@ == post,
                Err(e) => r == Err::<u64, EscrowError>(e) && *final(self) == *old(self),
            },
            consistent(old(self)@) ==> consistent(final(self)@) && extends(
                old(self)@,
                final(self)@,
            ),
    {
        self.submit_proposal(env, ProposalAction::SetTokenDecimals(new_token_decimals))
    }

    /// Disabled: the ledger is paused by proposal only.
    pub fn pause_contract(&mut self) -> (r: Result<(), EscrowError>)
        ensures
            r == Err::<(), EscrowError>(EscrowError::Unauthorized),
            *final(self) == *old(self),
    {
        Err(EscrowError::Unauthorized)
    }

    /// Disabled: the ledger is resumed by proposal only.
    pub fn unpause_contract(&mut self) -> (r: Result<(), EscrowError>)
        ensures
            r == Err::<(), EscrowError>(EscrowError::Unauthorized),
            *final(self) == *old(self),
    {
        Err(EscrowError::Unauthorized)
    }

    /// Disabled: the fee is set by proposal only.
    pub fn update_fee(&mut self, _new_fee_bps: u16) -> (r: Result<(), EscrowError>)
        ensures
            r == Err::<(), EscrowError>(EscrowError::Unauthorized),
            *final(self) == *old(self),
    {
        Err(EscrowError::Unauthorized)
    }

    /// Disabled: the token contract is set by proposal only.
    pub fn set_usdt_token(&mut self, _new_token_address: Address) -> (r: Result<(), EscrowError>)
        ensures
            r == Err::<(), EscrowError>(EscrowError::Unauthorized),
            *final(self) == *old(self),
    {
        Err(EscrowError::Unauthorized)
    }

    /// Disabled: the decimal places are set by proposal only.
    pub fn set_token_decimals(&mut self, _new_token_decimals: u8) -> (r: Result<(), EscrowError>)
        ensures
            r == Err::<(), EscrowError>(EscrowError::Unauthorized),
            *final(self) == *old(self),
    {
        Err(EscrowError::Unauthorized)
    }

    /// Disabled: token contract and decimal places are set by proposal only.
    pub fn set_token_and_decimals(
        &mut self,
        _new_token_address: Address,
        _new_token_decimals: u8,
    ) -> (r: Result<(), EscrowError>)
        ensures
            r == Err::<(), EscrowError>(EscrowError::Unauthorized),
            *final(self) == *old(self),
    {
        Err(EscrowError::Unauthorized)
    }
}

} // verus!
