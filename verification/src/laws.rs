//! What holds of the ledger whatever the state and the call: the laws that
//! relate its operations to one another.

use vstd::prelude::*;
use crate::amount::parse_amount_spec;
use crate::events::{EventView, ProposalApproved};
use crate::model::{
    action_error, all_completed, approve_proposal_spec, complete_milestone_spec, deposit_of,
    execute_proposal_spec, fee_spec, fee_transfer_spec, first_match, is_party,
    deposit_precheck_spec, milestone_position, notify_deposit_spec, payout_spec,
    release_amount_spec, release_milestone_spec, release_precheck_spec,
    submit_proposal_spec, ContractView,
};
use crate::types::{
    Balance, Env, EscrowError, EscrowStatus, MilestoneStatus, MilestoneView, ProposalAction,
    MAX_APPROVALS, MAX_FEE_BPS,
};

verus! {

/// A release goes through only for a party to a known escrow, on a known
/// milestone that is neither `Funded` nor `Completed`, while the ledger is
/// not paused, and only where both the deposit recorded for the escrow and
/// the custody balance cover the amount. The deposit then shrinks by exactly
/// the amount, the volume grows by it, and the milestone is `Funded`.
pub proof fn law_release_is_covered(
    pre: ContractView,
    env: Env,
    id: Seq<char>,
    milestone_id: Seq<char>,
    custody_balance: Balance,
)
    requires
        release_milestone_spec(pre, env, id, milestone_id, custody_balance) is Ok,
    ensures
        !pre.paused,
        pre.escrows.contains_key(id),
        is_party(pre.escrows[id], env.caller),
        milestone_position(pre.escrows[id].milestones, milestone_id) is Some,
        ({
            let i = milestone_position(pre.escrows[id].milestones, milestone_id)->0;
            &&& pre.escrows[id].milestones[i].status != MilestoneStatus::Funded
            &&& pre.escrows[id].milestones[i].status != MilestoneStatus::Completed
        }),
        pre.fee_bps <= MAX_FEE_BPS,
        deposit_of(pre.escrow_deposits, id) >= release_amount_spec(pre, id, milestone_id),
        custody_balance >= release_amount_spec(pre, id, milestone_id),
        ({
            let post = release_milestone_spec(pre, env, id, milestone_id, custody_balance)->Ok_0;
            let amount = release_amount_spec(pre, id, milestone_id);
            let i = milestone_position(pre.escrows[id].milestones, milestone_id)->0;
            &&& deposit_of(post.escrow_deposits, id) == deposit_of(pre.escrow_deposits, id)
                - amount
            &&& post.total_volume == pre.total_volume + amount
            &&& post.escrows[id].milestones[i].status == MilestoneStatus::Funded
        }),
{
}

/// A milestone that is `Funded` or `Completed` is not released: a party's
/// call is refused with `InvalidStatus` while the ledger is not paused,
/// whatever the deposit and the custody balance are.
pub proof fn law_settled_milestone_is_not_released(
    pre: ContractView,
    env: Env,
    id: Seq<char>,
    milestone_id: Seq<char>,
    custody_balance: Balance,
)
    requires
        !pre.paused,
        pre.escrows.contains_key(id),
        is_party(pre.escrows[id], env.caller),
        milestone_position(pre.escrows[id].milestones, milestone_id) is Some,
        ({
            let i = milestone_position(pre.escrows[id].milestones, milestone_id)->0;
            ||| pre.escrows[id].milestones[i].status == MilestoneStatus::Funded
            ||| pre.escrows[id].milestones[i].status == MilestoneStatus::Completed
        }),
    ensures
        release_milestone_spec(pre, env, id, milestone_id, custody_balance) == Err::<
            ContractView,
            EscrowError,
        >(EscrowError::InvalidStatus),
{
}

/// A milestone is paid at most once: after a release, a further release of
/// the same milestone is refused, whoever calls and whatever the custody
/// balance is, and for a party to the escrow with `InvalidStatus`.
pub proof fn law_release_at_most_once(
    pre: ContractView,
    first: Env,
    second: Env,
    id: Seq<char>,
    milestone_id: Seq<char>,
    custody_balance: Balance,
    later_balance: Balance,
)
    requires
        release_milestone_spec(pre, first, id, milestone_id, custody_balance) is Ok,
    ensures
        ({
            let post = release_milestone_spec(pre, first, id, milestone_id, custody_balance)->Ok_0;
            &&& release_milestone_spec(post, second, id, milestone_id, later_balance) is Err
            &&& is_party(pre.escrows[id], second.caller) ==> release_milestone_spec(
                post,
                second,
                id,
                milestone_id,
                later_balance,
            ) == Err::<ContractView, EscrowError>(EscrowError::InvalidStatus)
        }),
{
    let post = release_milestone_spec(pre, first, id, milestone_id, custody_balance)->Ok_0;
    let before = pre.escrows[id].milestones;
    let after = post.escrows[id].milestones;
    let i = milestone_position(before, milestone_id)->0;
    assert(first_match(before, milestone_id, i));
    assert(first_match(after, milestone_id, i)) by {
        assert forall|j: int| 0 <= j < i implies (#[trigger] after[j]).id != milestone_id by {
            assert(before[j].id != milestone_id);
        }
    }
    let c = milestone_position(after, milestone_id)->0;
    assert(first_match(after, milestone_id, c));
    assert(c == i) by {
        if c < i {
            assert(after[c].id != milestone_id);
        } else if c > i {
            assert(after[i].id != milestone_id);
        }
    }
}

/// A release that only the balances stand against is refused with
/// `InsufficientBalance`, whichever of the two falls short.
pub proof fn law_release_short_of_funds(
    pre: ContractView,
    env: Env,
    id: Seq<char>,
    milestone_id: Seq<char>,
    custody_balance: Balance,
    enough: Balance,
)
    requires
        release_milestone_spec(pre, env, id, milestone_id, enough) is Ok,
        deposit_of(pre.escrow_deposits, id) >= release_amount_spec(pre, id, milestone_id),
        custody_balance < release_amount_spec(pre, id, milestone_id),
    ensures
        release_milestone_spec(pre, env, id, milestone_id, custody_balance) == Err::<
            ContractView,
            EscrowError,
        >(EscrowError::InsufficientBalance),
{
}

/// The payout and the fee of a release come to the amount exactly, and the
/// fee is the amount times the basis points over 10,000, rounded down.
pub proof fn law_release_conserves(
    pre: ContractView,
    env: Env,
    id: Seq<char>,
    milestone_id: Seq<char>,
    custody_balance: Balance,
)
    requires
        release_milestone_spec(pre, env, id, milestone_id, custody_balance) is Ok,
    ensures
        ({
            let amount = release_amount_spec(pre, id, milestone_id);
            let fee = fee_spec(amount as nat, pre.fee_bps as nat);
            &&& fee <= amount
            &&& payout_spec(pre, id, milestone_id).value == amount - fee
            &&& match fee_transfer_spec(pre, id, milestone_id) {
                Some(t) => t.value == fee && fee > 0,
                None => fee == 0,
            }
        }),
{
    let amount = release_amount_spec(pre, id, milestone_id);
    crate::release::law_fee_conservation(amount as nat, pre.fee_bps as nat);
}

/// After a milestone is completed the escrow is `Completed` where all its
/// milestones are, and keeps the status it had where one of them is not:
/// an escrow with a milestone that is not `Completed` is never promoted.
/// No other escrow changes.
pub proof fn law_auto_completion(
    pre: ContractView,
    env: Env,
    id: Seq<char>,
    milestone_id: Seq<char>,
)
    requires
        complete_milestone_spec(pre, env, id, milestone_id) is Ok,
    ensures
        ({
            let post = complete_milestone_spec(pre, env, id, milestone_id)->Ok_0;
            let i = milestone_position(pre.escrows[id].milestones, milestone_id)->0;
            let before = pre.escrows[id];
            let after = post.escrows[id];
            &&& before.milestones[i].status == MilestoneStatus::Funded
            &&& after.milestones == before.milestones.update(
                i,
                MilestoneView { status: MilestoneStatus::Completed, ..before.milestones[i] },
            )
            &&& all_completed(after.milestones) ==> after.status == EscrowStatus::Completed
            &&& !all_completed(after.milestones) ==> after.status == before.status
            &&& forall|other: Seq<char>|
                other != id ==> post.escrows.contains_key(other) == pre.escrows.contains_key(
                    other,
                ) && post.escrows[other] == pre.escrows[other]
        }),
{
}

/// A new proposal holds the approval of its creator and no other. It is
/// executed at once exactly where one approval meets the threshold and the
/// action can be carried out.
pub proof fn law_submission(pre: ContractView, env: Env, action: ProposalAction)
    requires
        submit_proposal_spec(pre, env, action) is Ok,
    ensures
        ({
            let post = submit_proposal_spec(pre, env, action)->Ok_0;
            let id = (pre.proposal_counter + 1) as u64;
            &&& pre.admin_signers.contains(env.caller)
            &&& post.proposals.contains_key(id)
            &&& post.proposals[id].approvals == seq![env.caller]
            &&& post.proposals[id].action == action
            &&& post.proposals[id].executed == (pre.signature_threshold <= 1 && action_error(
                pre,
                action,
            ) is None)
        }),
{
}

/// An approval that goes through adds the caller to the approvals and is
/// recorded with the true count of approvals, which is at most 255. The
/// proposal is executed by it exactly where the approvals then meet the
/// threshold; below the threshold nothing but the approval changes.
pub proof fn law_approval(pre: ContractView, env: Env, id: u64)
    requires
        approve_proposal_spec(pre, env, id) is Ok,
    ensures
        ({
            let post = approve_proposal_spec(pre, env, id)->Ok_0;
            let before = pre.proposals[id];
            let after = post.proposals[id];
            &&& pre.admin_signers.contains(env.caller)
            &&& !before.executed
            &&& !before.approvals.contains(env.caller)
            &&& after.approvals == before.approvals.push(env.caller)
            &&& after.approvals.len() <= MAX_APPROVALS
            &&& post.events.len() > pre.events.len()
            &&& post.events[pre.events.len() as int] == EventView::ProposalApproved(
                ProposalApproved {
                    proposal_id: id,
                    approved_by: env.caller,
                    approvals_count: after.approvals.len() as u8,
                },
            )
            &&& after.executed == (after.approvals.len() >= pre.signature_threshold)
            &&& !after.executed ==> post == (ContractView {
                proposals: post.proposals,
                events: post.events,
                ..pre
            })
        }),
{
}

/// A signer who has approved a proposal cannot approve it again: the second
/// approval is refused with `InvalidStatus`.
pub proof fn law_duplicate_approval(pre: ContractView, env: Env, id: u64)
    requires
        pre.admin_signers.contains(env.caller),
        pre.proposals.contains_key(id),
        pre.proposals[id].approvals.contains(env.caller),
    ensures
        approve_proposal_spec(pre, env, id) == Err::<ContractView, EscrowError>(
            EscrowError::InvalidStatus,
        ),
{
}

/// An executed proposal takes no more approvals: a signer's approval is
/// refused with `InvalidStatus`.
pub proof fn law_approval_after_execution(pre: ContractView, env: Env, id: u64)
    requires
        pre.admin_signers.contains(env.caller),
        pre.proposals.contains_key(id),
        pre.proposals[id].executed,
    ensures
        approve_proposal_spec(pre, env, id) == Err::<ContractView, EscrowError>(
            EscrowError::InvalidStatus,
        ),
{
}

/// An executed proposal cannot be executed again: the call is refused with
/// `InvalidStatus`, whoever makes it and whatever the threshold is.
pub proof fn law_executed_stays_executed(pre: ContractView, env: Env, id: u64)
    requires
        pre.proposals.contains_key(id),
        pre.proposals[id].executed,
    ensures
        execute_proposal_spec(pre, env, id) == Err::<ContractView, EscrowError>(
            EscrowError::InvalidStatus,
        ),
{
}

/// Executing a proposal twice fails the second time with `InvalidStatus`,
/// whoever makes the second call.
pub proof fn law_execution_is_idempotent(pre: ContractView, first: Env, second: Env, id: u64)
    requires
        execute_proposal_spec(pre, first, id) is Ok,
    ensures
        execute_proposal_spec(execute_proposal_spec(pre, first, id)->Ok_0, second, id) == Err::<
            ContractView,
            EscrowError,
        >(EscrowError::InvalidStatus),
{
}

/// A proposal that an approval has executed cannot be executed again: a
/// later call to execute it fails with `InvalidStatus`, whoever makes it
/// and whatever the action has made of the threshold.
pub proof fn law_execution_after_approval(pre: ContractView, approver: Env, later: Env, id: u64)
    requires
        approve_proposal_spec(pre, approver, id) is Ok,
        approve_proposal_spec(pre, approver, id)->Ok_0.proposals[id].executed,
    ensures
        execute_proposal_spec(approve_proposal_spec(pre, approver, id)->Ok_0, later, id) == Err::<
            ContractView,
            EscrowError,
        >(EscrowError::InvalidStatus),
{
}

/// A recorded deposit is the sum of what was recorded before and the
/// amount, and the custody balance covers it. A sum that does not fit in
/// 128 bits is never recorded.
pub proof fn law_deposit_is_exact(
    pre: ContractView,
    id: Seq<char>,
    amount: Seq<char>,
    custody_balance: Balance,
)
    requires
        notify_deposit_spec(pre, id, amount, custody_balance) is Ok,
    ensures
        ({
            let post = notify_deposit_spec(pre, id, amount, custody_balance)->Ok_0;
            let units = parse_amount_spec(amount, pre.token_decimals as nat);
            &&& units is Ok
            &&& deposit_of(post.escrow_deposits, id) == deposit_of(pre.escrow_deposits, id)
                + units->Ok_0
            &&& deposit_of(post.escrow_deposits, id) <= custody_balance
        }),
{
}

/// The custody balance decides a release only where nothing else stands
/// against it: what the precheck refuses is refused with the same error
/// whatever the custody balance is, and what the precheck lets pass goes
/// through exactly where the custody balance covers the amount.
pub proof fn law_release_asks_custody_last(
    pre: ContractView,
    env: Env,
    id: Seq<char>,
    milestone_id: Seq<char>,
    custody_balance: Balance,
)
    ensures
        match release_precheck_spec(pre, env, id, milestone_id) {
            Err(e) => release_milestone_spec(pre, env, id, milestone_id, custody_balance) == Err::<
                ContractView,
                EscrowError,
            >(e),
            Ok(amount) => {
                &&& amount == release_amount_spec(pre, id, milestone_id)
                &&& release_milestone_spec(pre, env, id, milestone_id, custody_balance) is Ok
                    <==> custody_balance >= amount
                &&& custody_balance < amount ==> release_milestone_spec(
                    pre,
                    env,
                    id,
                    milestone_id,
                    custody_balance,
                ) == Err::<ContractView, EscrowError>(EscrowError::InsufficientBalance)
            },
        },
{
}

/// The custody balance decides a deposit only where nothing else stands
/// against it: what the precheck refuses is refused with the same error
/// whatever the custody balance is, and what the precheck lets pass is
/// recorded exactly where the custody balance covers the new total.
pub proof fn law_deposit_asks_custody_last(
    pre: ContractView,
    id: Seq<char>,
    amount: Seq<char>,
    custody_balance: Balance,
)
    ensures
        match deposit_precheck_spec(pre, id, amount) {
            Err(e) => notify_deposit_spec(pre, id, amount, custody_balance) == Err::<
                ContractView,
                EscrowError,
            >(e),
            Ok(total) => {
                &&& notify_deposit_spec(pre, id, amount, custody_balance) is Ok
                    <==> custody_balance >= total
                &&& custody_balance < total ==> notify_deposit_spec(
                    pre,
                    id,
                    amount,
                    custody_balance,
                ) == Err::<ContractView, EscrowError>(EscrowError::InsufficientBalance)
            },
        },
{
}

} // verus!
