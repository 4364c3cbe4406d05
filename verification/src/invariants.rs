//! What holds of every state that the ledger reaches from its set-up by its
//! own operations, and how a later state relates to an earlier one: the
//! records are kept, and what is settled stays settled.

use vstd::prelude::*;
use crate::model::{
    action_error, apply_action, approve_proposal_spec, complete_milestone_spec,
    complete_milestone_task_spec, completion_check_spec, create_escrow_spec,
    dispute_milestone_spec, escrow_id_spec, execute_proposal_spec, execute_spec, first_signer,
    ids_of, index_add, initial_state, is_party, listed, notify_counterparty_spec,
    notify_deposit_spec, release_milestone_spec, signer_index, submit_proposal_spec,
    update_escrow_milestone_status_spec, update_escrow_status_spec, ContractView,
};
use crate::text::{decimal_spec, digit_char};
use crate::types::{
    Address, Balance, Env, EscrowError, EscrowView, EvidenceView, MilestoneInputView,
    ProposalAction, ProposalView, MAX_APPROVALS, MAX_FEE_BPS,
};

verus! {

/// `k` is the id of an escrow with a number from 1 to `upto`.
pub open spec fn is_numbered(k: Seq<char>, upto: u64) -> bool {
    exists|n: nat| 1 <= n <= upto && k == #[trigger] escrow_id_spec(n)
}

/// Every escrow is stored under its own id, and that id has a number that
/// was handed out.
pub open spec fn escrows_numbered(s: ContractView) -> bool {
    forall|k: Seq<char>| #[trigger]
        s.escrows.contains_key(k) ==> is_numbered(k, s.escrow_counter) && s.escrows[k].id == k
}

/// The reverse index holds every escrow for both its parties.
pub open spec fn index_covers(s: ContractView) -> bool {
    forall|k: Seq<char>| #[trigger]
        s.escrows.contains_key(k) ==> ids_of(s.user_escrows, s.escrows[k].creator_address).contains(
            k,
        ) && ids_of(s.user_escrows, s.escrows[k].counterparty_address).contains(k)
}

/// The reverse index holds for an identity only escrows that exist and that
/// the identity is a party to.
pub open spec fn index_sound(s: ContractView) -> bool {
    forall|a: Address, i: int|
        0 <= i < ids_of(s.user_escrows, a).len() ==> s.escrows.contains_key(
            #[trigger] ids_of(s.user_escrows, a)[i],
        ) && is_party(s.escrows[ids_of(s.user_escrows, a)[i]], a)
}

/// The reverse index holds no escrow twice for one identity.
pub open spec fn index_unique(s: ContractView) -> bool {
    forall|a: Address| #[trigger] ids_of(s.user_escrows, a).no_duplicates()
}

/// Deposits are recorded for escrows that exist.
pub open spec fn deposits_belong(s: ContractView) -> bool {
    forall|k: Seq<char>| #[trigger]
        s.escrow_deposits.contains_key(k) ==> s.escrows.contains_key(k)
}

/// The proposal `p` is stored under its own number `id`, which was handed
/// out; it holds at least one approval and none twice; where it is
/// executed, it says when.
pub open spec fn proposal_in_order(p: ProposalView, id: u64, counter: u64) -> bool {
    &&& 1 <= id <= counter
    &&& p.id == id
    &&& 1 <= p.approvals.len() <= MAX_APPROVALS
    &&& p.approvals.no_duplicates()
    &&& p.executed ==> p.executed_at is Some
}

/// Every proposal is in order, and has room for one more approval while it
/// is not executed.
pub open spec fn proposals_numbered(s: ContractView) -> bool {
    forall|id: u64| #[trigger]
        s.proposals.contains_key(id) ==> {
            &&& proposal_in_order(s.proposals[id], id, s.proposal_counter)
            &&& !s.proposals[id].executed ==> s.proposals[id].approvals.len() < MAX_APPROVALS
        }
}

/// `consistent`, but that the proposal `id` need not have room for another
/// approval: the state between an approval and the execution that it
/// leads to.
spec fn consistent_before_execution(s: ContractView, id: u64) -> bool {
    &&& escrows_numbered(s)
    &&& index_covers(s)
    &&& index_sound(s)
    &&& index_unique(s)
    &&& deposits_belong(s)
    &&& governable(s)
    &&& forall|j: u64| #[trigger]
        s.proposals.contains_key(j) ==> {
            &&& proposal_in_order(s.proposals[j], j, s.proposal_counter)
            &&& j != id && !s.proposals[j].executed ==> s.proposals[j].approvals.len()
                < MAX_APPROVALS
        }
}

/// The fee is at most the whole amount; there is no signer twice, and the
/// threshold is at least 1 and at most the number of signers.
pub open spec fn governable(s: ContractView) -> bool {
    &&& s.fee_bps <= MAX_FEE_BPS
    &&& s.admin_signers.no_duplicates()
    &&& 1 <= s.signature_threshold <= s.admin_signers.len()
}

/// What holds of every state that the ledger reaches.
pub open spec fn consistent(s: ContractView) -> bool {
    &&& escrows_numbered(s)
    &&& index_covers(s)
    &&& index_sound(s)
    &&& index_unique(s)
    &&& deposits_belong(s)
    &&& proposals_numbered(s)
    &&& governable(s)
}

/// How a later state relates to an earlier one. Counters and volume do not
/// fall and the record of events only grows. Every escrow is kept, with its
/// id, its parties, its time of creation and the ids of its milestones.
/// Every proposal is kept, with its action and creator; its approvals only
/// grow, and an executed proposal does not change at all. Owner, fee
/// account and default duration stay.
pub open spec fn extends(pre: ContractView, post: ContractView) -> bool {
    &&& pre.escrow_counter <= post.escrow_counter
    &&& pre.proposal_counter <= post.proposal_counter
    &&& pre.total_volume <= post.total_volume
    &&& pre.events.is_prefix_of(post.events)
    &&& pre.owner == post.owner
    &&& pre.fee_account == post.fee_account
    &&& pre.default_duration == post.default_duration
    &&& forall|k: Seq<char>| #[trigger]
        pre.escrows.contains_key(k) ==> {
            &&& post.escrows.contains_key(k)
            &&& post.escrows[k].id == pre.escrows[k].id
            &&& post.escrows[k].creator_address == pre.escrows[k].creator_address
            &&& post.escrows[k].counterparty_address == pre.escrows[k].counterparty_address
            &&& post.escrows[k].created_at == pre.escrows[k].created_at
            &&& post.escrows[k].milestones.len() == pre.escrows[k].milestones.len()
            &&& forall|i: int|
                0 <= i < pre.escrows[k].milestones.len() ==> (
                #[trigger] post.escrows[k].milestones[i]).id == pre.escrows[k].milestones[i].id
        }
    &&& forall|id: u64| #[trigger]
        pre.proposals.contains_key(id) ==> {
            &&& post.proposals.contains_key(id)
            &&& post.proposals[id].action == pre.proposals[id].action
            &&& post.proposals[id].created_by == pre.proposals[id].created_by
            &&& post.proposals[id].created_at == pre.proposals[id].created_at
            &&& pre.proposals[id].approvals.is_prefix_of(post.proposals[id].approvals)
            &&& pre.proposals[id].executed ==> post.proposals[id] == pre.proposals[id]
        }
}

/// The numeral of a number has at least one digit.
proof fn lemma_decimal_nonempty(n: nat)
    ensures
        decimal_spec(n).len() >= 1,
    decreases n,
{
    if n >= 10 {
        lemma_decimal_nonempty(n / 10);
    }
}

/// Two numbers with the same numeral are the same number.
pub proof fn lemma_decimal_injective(a: nat, b: nat)
    requires
        decimal_spec(a) == decimal_spec(b),
    ensures
        a == b,
    decreases a,
{
    lemma_decimal_nonempty(a / 10);
    lemma_decimal_nonempty(b / 10);
    if a < 10 && b < 10 {
        assert(decimal_spec(a)[0] == digit_char(a));
        assert(decimal_spec(b)[0] == digit_char(b));
    } else if a >= 10 && b >= 10 {
        let x = decimal_spec(a / 10);
        let y = decimal_spec(b / 10);
        assert(x.push(digit_char(a % 10)).drop_last() =~= x);
        assert(y.push(digit_char(b % 10)).drop_last() =~= y);
        assert(x.push(digit_char(a % 10)).last() == digit_char(a % 10));
        assert(y.push(digit_char(b % 10)).last() == digit_char(b % 10));
        lemma_decimal_injective(a / 10, b / 10);
    } else if a < 10 {
        assert(decimal_spec(a).len() == 1);
        assert(decimal_spec(b).len() == decimal_spec(b / 10).len() + 1);
    } else {
        assert(decimal_spec(b).len() == 1);
        assert(decimal_spec(a).len() == decimal_spec(a / 10).len() + 1);
    }
}

/// Two escrows with the same id have the same number.
pub proof fn lemma_escrow_id_injective(a: nat, b: nat)
    requires
        escrow_id_spec(a) == escrow_id_spec(b),
    ensures
        a == b,
{
    let p = "escrow_"@;
    assert((p + decimal_spec(a)).skip(p.len() as int) =~= decimal_spec(a));
    assert((p + decimal_spec(b)).skip(p.len() as int) =~= decimal_spec(b));
    lemma_decimal_injective(a, b);
}

/// The id that the next escrow gets is not in use.
pub proof fn lemma_next_id_is_fresh(s: ContractView)
    requires
        escrows_numbered(s),
        s.escrow_counter < u64::MAX,
    ensures
        !s.escrows.contains_key(escrow_id_spec((s.escrow_counter + 1) as nat)),
{
    let id = escrow_id_spec((s.escrow_counter + 1) as nat);
    if s.escrows.contains_key(id) {
        let n = choose|n: nat| 1 <= n <= s.escrow_counter && id == #[trigger] escrow_id_spec(n);
        lemma_escrow_id_injective(n, (s.escrow_counter + 1) as nat);
    }
}

/// A ledger that was just set up is consistent.
pub proof fn law_initial_state_is_consistent(
    caller: Address,
    usdt_token: Address,
    fee_account: Address,
)
    ensures
        consistent(initial_state(caller, usdt_token, fee_account)),
{
    let s = initial_state(caller, usdt_token, fee_account);
    assert(s.admin_signers.no_duplicates());
    assert forall|a: Address| ids_of(s.user_escrows, a).len() == 0 by {}
}

/// `extends` is reflexive.
pub proof fn law_extends_reflexive(s: ContractView)
    ensures
        extends(s, s),
{
}

/// `extends` is transitive: what holds from one state to the next holds
/// over any run of operations.
pub proof fn law_extends_transitive(a: ContractView, b: ContractView, c: ContractView)
    requires
        extends(a, b),
        extends(b, c),
    ensures
        extends(a, c),
{
    assert forall|k: Seq<char>| #[trigger] a.escrows.contains_key(k) implies {
        &&& c.escrows.contains_key(k)
        &&& c.escrows[k].id == a.escrows[k].id
        &&& c.escrows[k].creator_address == a.escrows[k].creator_address
        &&& c.escrows[k].counterparty_address == a.escrows[k].counterparty_address
        &&& c.escrows[k].created_at == a.escrows[k].created_at
        &&& c.escrows[k].milestones.len() == a.escrows[k].milestones.len()
        &&& forall|i: int|
            0 <= i < a.escrows[k].milestones.len() ==> (#[trigger] c.escrows[k].milestones[i]).id
                == a.escrows[k].milestones[i].id
    } by {
        assert(b.escrows.contains_key(k));
        assert forall|i: int| 0 <= i < a.escrows[k].milestones.len() implies (
        #[trigger] c.escrows[k].milestones[i]).id == a.escrows[k].milestones[i].id by {
            assert(b.escrows[k].milestones[i].id == a.escrows[k].milestones[i].id);
        }
    }
    assert forall|id: u64| #[trigger] a.proposals.contains_key(id) implies {
        &&& c.proposals.contains_key(id)
        &&& c.proposals[id].action == a.proposals[id].action
        &&& c.proposals[id].created_by == a.proposals[id].created_by
        &&& c.proposals[id].created_at == a.proposals[id].created_at
        &&& a.proposals[id].approvals.is_prefix_of(c.proposals[id].approvals)
        &&& a.proposals[id].executed ==> c.proposals[id] == a.proposals[id]
    } by {
        assert(b.proposals.contains_key(id));
    }
}

/// Changing the status of an escrow keeps the ledger consistent and its
/// records in place.
pub proof fn law_update_escrow_status_keeps(
    pre: ContractView,
    env: Env,
    id: Seq<char>,
    new_status: Seq<char>,
    transaction_hash: Option<Seq<char>>,
)
    requires
        consistent(pre),
        update_escrow_status_spec(pre, env, id, new_status, transaction_hash) is Ok,
    ensures
        consistent(update_escrow_status_spec(pre, env, id, new_status, transaction_hash)->Ok_0),
        extends(pre, update_escrow_status_spec(pre, env, id, new_status, transaction_hash)->Ok_0),
{
}

/// Changing the status of a milestone keeps the ledger consistent and its
/// records in place.
pub proof fn law_update_escrow_milestone_status_keeps(
    pre: ContractView,
    env: Env,
    id: Seq<char>,
    milestone_id: Seq<char>,
    new_status: Seq<char>,
)
    requires
        consistent(pre),
        update_escrow_milestone_status_spec(pre, env, id, milestone_id, new_status) is Ok,
    ensures
        consistent(
            update_escrow_milestone_status_spec(pre, env, id, milestone_id, new_status)->Ok_0,
        ),
        extends(
            pre,
            update_escrow_milestone_status_spec(pre, env, id, milestone_id, new_status)->Ok_0,
        ),
{
}

/// Recording a deposit keeps the ledger consistent and its records in
/// place.
pub proof fn law_notify_deposit_keeps(
    pre: ContractView,
    id: Seq<char>,
    amount: Seq<char>,
    custody_balance: Balance,
)
    requires
        consistent(pre),
        notify_deposit_spec(pre, id, amount, custody_balance) is Ok,
    ensures
        consistent(notify_deposit_spec(pre, id, amount, custody_balance)->Ok_0),
        extends(pre, notify_deposit_spec(pre, id, amount, custody_balance)->Ok_0),
{
}

/// Reporting a task as done keeps the ledger consistent and its records in
/// place.
pub proof fn law_complete_milestone_task_keeps(
    pre: ContractView,
    env: Env,
    id: Seq<char>,
    milestone_id: Seq<char>,
    completion_note: Option<Seq<char>>,
    evidence_file: Option<Seq<EvidenceView>>,
)
    requires
        consistent(pre),
        complete_milestone_task_spec(pre, env, id, milestone_id, completion_note, evidence_file)
            is Ok,
    ensures
        consistent(
            complete_milestone_task_spec(
                pre,
                env,
                id,
                milestone_id,
                completion_note,
                evidence_file,
            )->Ok_0,
        ),
        extends(
            pre,
            complete_milestone_task_spec(
                pre,
                env,
                id,
                milestone_id,
                completion_note,
                evidence_file,
            )->Ok_0,
        ),
{
}

/// A release keeps the ledger consistent and its records in place.
pub proof fn law_release_milestone_keeps(
    pre: ContractView,
    env: Env,
    id: Seq<char>,
    milestone_id: Seq<char>,
    custody_balance: Balance,
)
    requires
        consistent(pre),
        release_milestone_spec(pre, env, id, milestone_id, custody_balance) is Ok,
    ensures
        consistent(release_milestone_spec(pre, env, id, milestone_id, custody_balance)->Ok_0),
        extends(pre, release_milestone_spec(pre, env, id, milestone_id, custody_balance)->Ok_0),
{
}

/// The completion check keeps the ledger consistent and its records in
/// place.
pub proof fn law_completion_check_keeps(pre: ContractView, id: Seq<char>)
    requires
        consistent(pre),
    ensures
        consistent(completion_check_spec(pre, id)),
        extends(pre, completion_check_spec(pre, id)),
{
}

/// Completing a milestone keeps the ledger consistent and its records in
/// place.
pub proof fn law_complete_milestone_keeps(
    pre: ContractView,
    env: Env,
    id: Seq<char>,
    milestone_id: Seq<char>,
)
    requires
        consistent(pre),
        complete_milestone_spec(pre, env, id, milestone_id) is Ok,
    ensures
        consistent(complete_milestone_spec(pre, env, id, milestone_id)->Ok_0),
        extends(pre, complete_milestone_spec(pre, env, id, milestone_id)->Ok_0),
{
}

/// A dispute keeps the ledger consistent and its records in place.
pub proof fn law_dispute_milestone_keeps(
    pre: ContractView,
    env: Env,
    id: Seq<char>,
    milestone_id: Seq<char>,
    reason: Seq<char>,
)
    requires
        consistent(pre),
        dispute_milestone_spec(pre, env, id, milestone_id, reason) is Ok,
    ensures
        consistent(dispute_milestone_spec(pre, env, id, milestone_id, reason)->Ok_0),
        extends(pre, dispute_milestone_spec(pre, env, id, milestone_id, reason)->Ok_0),
{
}

/// A notification keeps the ledger consistent and its records in place.
pub proof fn law_notify_counterparty_keeps(
    pre: ContractView,
    env: Env,
    id: Seq<char>,
    notification_type: Seq<char>,
    recipient: Address,
)
    requires
        consistent(pre),
        notify_counterparty_spec(pre, env, id, notification_type, recipient) is Ok,
    ensures
        consistent(notify_counterparty_spec(pre, env, id, notification_type, recipient)->Ok_0),
        extends(pre, notify_counterparty_spec(pre, env, id, notification_type, recipient)->Ok_0),
{
}

/// Creating an escrow keeps the ledger consistent and its records in
/// place; the new escrow takes the place of no other.
pub proof fn law_create_escrow_keeps(
    pre: ContractView,
    env: Env,
    counterparty: Address,
    counterparty_type: Seq<char>,
    status: Seq<char>,
    title: Seq<char>,
    description: Seq<char>,
    total_amount: Seq<char>,
    inputs: Seq<MilestoneInputView>,
    transaction_hash: Option<Seq<char>>,
)
    requires
        consistent(pre),
        create_escrow_spec(
            pre,
            env,
            counterparty,
            counterparty_type,
            status,
            title,
            description,
            total_amount,
            inputs,
            transaction_hash,
        ) is Ok,
    ensures
        !pre.escrows.contains_key(escrow_id_spec((pre.escrow_counter + 1) as nat)),
        consistent(
            create_escrow_spec(
                pre,
                env,
                counterparty,
                counterparty_type,
                status,
                title,
                description,
                total_amount,
                inputs,
                transaction_hash,
            )->Ok_0,
        ),
        extends(
            pre,
            create_escrow_spec(
                pre,
                env,
                counterparty,
                counterparty_type,
                status,
                title,
                description,
                total_amount,
                inputs,
                transaction_hash,
            )->Ok_0,
        ),
{
    let post = create_escrow_spec(
        pre,
        env,
        counterparty,
        counterparty_type,
        status,
        title,
        description,
        total_amount,
        inputs,
        transaction_hash,
    )->Ok_0;
    let id = escrow_id_spec((pre.escrow_counter + 1) as nat);
    lemma_next_id_is_fresh(pre);
    let first = index_add(pre.user_escrows, env.caller, id);
    assert forall|a: Address| #[trigger]
        ids_of(post.user_escrows, a) == if a == counterparty || a == env.caller {
            ids_of(pre.user_escrows, a).push(id)
        } else {
            ids_of(pre.user_escrows, a)
        } by {
        assert(ids_of(first, env.caller) == ids_of(pre.user_escrows, env.caller).push(id));
    }
    assert(index_unique(post)) by {
        assert forall|a: Address| #[trigger] ids_of(post.user_escrows, a).no_duplicates() by {
            let before = ids_of(pre.user_escrows, a);
            let after = ids_of(post.user_escrows, a);
            assert(before.no_duplicates());
            assert forall|i: int, j: int|
                0 <= i < after.len() && 0 <= j < after.len() && i != j implies after[i]
                != after[j] by {
                if i < before.len() {
                    assert(pre.escrows.contains_key(before[i]));
                }
                if j < before.len() {
                    assert(pre.escrows.contains_key(before[j]));
                }
            }
        }
    }
    assert(escrows_numbered(post)) by {
        assert forall|k: Seq<char>| #[trigger] post.escrows.contains_key(k) implies is_numbered(
            k,
            post.escrow_counter,
        ) && post.escrows[k].id == k by {
            if k != id {
                assert(pre.escrows.contains_key(k));
                let n = choose|n: nat|
                    1 <= n <= pre.escrow_counter && k == #[trigger] escrow_id_spec(n);
                assert(1 <= n <= post.escrow_counter && k == escrow_id_spec(n));
            } else {
                assert(k == escrow_id_spec(post.escrow_counter as nat));
            }
        }
    }
    assert(index_covers(post)) by {
        assert forall|k: Seq<char>| #[trigger] post.escrows.contains_key(k) implies ids_of(
            post.user_escrows,
            post.escrows[k].creator_address,
        ).contains(k) && ids_of(post.user_escrows, post.escrows[k].counterparty_address).contains(
            k,
        ) by {
            lemma_kept_in_index(pre, post, id, env.caller, counterparty, k);
        }
    }
    assert(index_sound(post)) by {
        assert forall|a: Address, i: int| 0 <= i < ids_of(post.user_escrows, a).len() implies
            post.escrows.contains_key(#[trigger] ids_of(post.user_escrows, a)[i]) && is_party(
            post.escrows[ids_of(post.user_escrows, a)[i]],
            a,
        ) by {
            let before = ids_of(pre.user_escrows, a);
            if i < before.len() {
                assert(ids_of(post.user_escrows, a)[i] == before[i]);
                assert(pre.escrows.contains_key(before[i]));
            }
        }
    }
}

/// An id that the index held for a party of an escrow is still held after
/// an escrow was created, and the new escrow is held for both its parties.
proof fn lemma_kept_in_index(
    pre: ContractView,
    post: ContractView,
    id: Seq<char>,
    creator: Address,
    counterparty: Address,
    k: Seq<char>,
)
    requires
        index_covers(pre),
        !pre.escrows.contains_key(id),
        post.escrows.contains_key(k),
        post.escrows.dom() == pre.escrows.dom().insert(id),
        forall|j: Seq<char>| j != id && pre.escrows.contains_key(j) ==> post.escrows[j]
            == pre.escrows[j],
        post.escrows[id].creator_address == creator,
        post.escrows[id].counterparty_address == counterparty,
        forall|a: Address| #[trigger]
            ids_of(post.user_escrows, a) == if a == counterparty || a == creator {
                ids_of(pre.user_escrows, a).push(id)
            } else {
                ids_of(pre.user_escrows, a)
            },
    ensures
        ids_of(post.user_escrows, post.escrows[k].creator_address).contains(k),
        ids_of(post.user_escrows, post.escrows[k].counterparty_address).contains(k),
{
    let c = post.escrows[k].creator_address;
    let p = post.escrows[k].counterparty_address;
    if k == id {
        let after_c = ids_of(post.user_escrows, c);
        let after_p = ids_of(post.user_escrows, p);
        assert(after_c[after_c.len() - 1] == id);
        assert(after_p[after_p.len() - 1] == id);
    } else {
        assert(pre.escrows.contains_key(k));
        let before_c = ids_of(pre.user_escrows, c);
        let before_p = ids_of(pre.user_escrows, p);
        let ic = choose|i: int| 0 <= i < before_c.len() && before_c[i] == k;
        let ip = choose|i: int| 0 <= i < before_p.len() && before_p[i] == k;
        assert(ids_of(post.user_escrows, c)[ic] == k);
        assert(ids_of(post.user_escrows, p)[ip] == k);
    }
}

/// An action that can be carried out leaves the ledger governable, and
/// touches neither the escrows nor the proposals.
proof fn lemma_apply_keeps(pre: ContractView, action: ProposalAction, by: Address, id: u64)
    requires
        consistent_before_execution(pre, id),
        action_error(pre, action) is None,
    ensures
        consistent_before_execution(apply_action(pre, action, by), id),
        extends(pre, apply_action(pre, action, by)),
        apply_action(pre, action, by).proposals == pre.proposals,
        apply_action(pre, action, by).proposal_counter == pre.proposal_counter,
{
    let post = apply_action(pre, action, by);
    let signers = pre.admin_signers;
    match action {
        ProposalAction::AddSigner(signer) => {
            if !signers.contains(signer) {
                assert forall|i: int, j: int|
                    0 <= i < signers.push(signer).len() && 0 <= j < signers.push(signer).len()
                        && i != j implies signers.push(signer)[i] != signers.push(signer)[j] by {
                    if i < signers.len() {
                        assert(signers.contains(signers[i]));
                    }
                    if j < signers.len() {
                        assert(signers.contains(signers[j]));
                    }
                }
            }
        },
        ProposalAction::RemoveSigner(signer) => {
            if signers.contains(signer) {
                let w = choose|i: int| 0 <= i < signers.len() && signers[i] == signer;
                lemma_first_signer_exists(signers, signer, w);
                let at = signer_index(signers, signer);
                assert(first_signer(signers, signer, at));
                let rest = signers.remove(at);
                assert forall|i: int, j: int|
                    0 <= i < rest.len() && 0 <= j < rest.len() && i != j implies rest[i]
                    != rest[j] by {
                    let si = if i < at {
                        i
                    } else {
                        i + 1
                    };
                    let sj = if j < at {
                        j
                    } else {
                        j + 1
                    };
                    assert(rest[i] == signers[si]);
                    assert(rest[j] == signers[sj]);
                }
            }
        },
        _ => {},
    }
}

/// Someone who stands among the signers stands somewhere first.
proof fn lemma_first_signer_exists(signers: Seq<Address>, who: Address, w: int)
    requires
        0 <= w < signers.len(),
        signers[w] == who,
    ensures
        exists|i: int| first_signer(signers, who, i),
    decreases w,
{
    if exists|j: int| 0 <= j < w && signers[j] == who {
        let j = choose|j: int| 0 <= j < w && signers[j] == who;
        lemma_first_signer_exists(signers, who, j);
    } else {
        assert(first_signer(signers, who, w));
    }
}

/// Executing the proposal `p` of the number `id` keeps the ledger
/// consistent and its records in place, where `p` is the stored proposal
/// with, at most, approvals added.
proof fn lemma_execute_keeps(pre: ContractView, env: Env, id: u64, p: ProposalView)
    requires
        consistent_before_execution(pre, id),
        execute_spec(pre, env, id, p) is Ok,
        pre.proposals.contains_key(id),
        !pre.proposals[id].executed,
        p.id == id,
        p.action == pre.proposals[id].action,
        p.created_by == pre.proposals[id].created_by,
        p.created_at == pre.proposals[id].created_at,
        pre.proposals[id].approvals.is_prefix_of(p.approvals),
        p.approvals.no_duplicates(),
        p.approvals.len() <= MAX_APPROVALS,
    ensures
        consistent(execute_spec(pre, env, id, p)->Ok_0),
        extends(pre, execute_spec(pre, env, id, p)->Ok_0),
{
    lemma_apply_keeps(pre, p.action, p.created_by, id);
    let applied = apply_action(pre, p.action, p.created_by);
    let post = execute_spec(pre, env, id, p)->Ok_0;
    assert(pre.events.is_prefix_of(applied.events));
    assert(applied.events.is_prefix_of(post.events));
    assert(pre.events.is_prefix_of(post.events));
}

/// Submitting a proposal keeps the ledger consistent and its records in
/// place.
pub proof fn law_submit_proposal_keeps(pre: ContractView, env: Env, action: ProposalAction)
    requires
        consistent(pre),
        submit_proposal_spec(pre, env, action) is Ok,
    ensures
        consistent(submit_proposal_spec(pre, env, action)->Ok_0),
        extends(pre, submit_proposal_spec(pre, env, action)->Ok_0),
{
    let id = (pre.proposal_counter + 1) as u64;
    let p = ProposalView {
        id,
        action,
        created_by: env.caller,
        created_at: env.block_timestamp,
        approvals: seq![env.caller],
        executed: false,
        executed_at: None,
    };
    let created = ContractView {
        proposal_counter: id,
        proposals: pre.proposals.insert(id, p),
        events: pre.events.push(
            crate::events::EventView::ProposalCreated(
                crate::events::ProposalCreated { proposal_id: id, action, created_by: env.caller },
            ),
        ),
        ..pre
    };
    assert(consistent(created));
    assert(extends(pre, created));
    if 1 >= pre.signature_threshold && execute_spec(created, env, id, p) is Ok {
        lemma_execute_keeps(created, env, id, p);
        law_extends_transitive(pre, created, execute_spec(created, env, id, p)->Ok_0);
    }
}

/// An approval keeps the ledger consistent and its records in place.
pub proof fn law_approve_proposal_keeps(pre: ContractView, env: Env, id: u64)
    requires
        consistent(pre),
        approve_proposal_spec(pre, env, id) is Ok,
    ensures
        consistent(approve_proposal_spec(pre, env, id)->Ok_0),
        extends(pre, approve_proposal_spec(pre, env, id)->Ok_0),
{
    let before = pre.proposals[id];
    let p = ProposalView { approvals: before.approvals.push(env.caller), ..before };
    let approved = ContractView {
        proposals: pre.proposals.insert(id, p),
        events: pre.events.push(
            crate::events::EventView::ProposalApproved(
                crate::events::ProposalApproved {
                    proposal_id: id,
                    approved_by: env.caller,
                    approvals_count: p.approvals.len() as u8,
                },
            ),
        ),
        ..pre
    };
    assert(p.approvals.no_duplicates()) by {
        assert forall|i: int, j: int|
            0 <= i < p.approvals.len() && 0 <= j < p.approvals.len() && i != j implies
            p.approvals[i] != p.approvals[j] by {
            if i < before.approvals.len() {
                assert(before.approvals.contains(before.approvals[i]));
            }
            if j < before.approvals.len() {
                assert(before.approvals.contains(before.approvals[j]));
            }
        }
    }
    assert(before.approvals.is_prefix_of(p.approvals));
    assert(consistent_before_execution(approved, id));
    assert(extends(pre, approved));
    if p.approvals.len() >= pre.signature_threshold {
        lemma_execute_keeps(approved, env, id, p);
        law_extends_transitive(pre, approved, execute_spec(approved, env, id, p)->Ok_0);
    }
}

/// In a consistent ledger every proposal that is not executed has room for
/// another approval: no approval is refused with `ArithmeticOverflow`.
pub proof fn law_approval_has_room(pre: ContractView, env: Env, id: u64)
    requires
        consistent(pre),
    ensures
        approve_proposal_spec(pre, env, id) != Err::<ContractView, EscrowError>(
            EscrowError::ArithmeticOverflow,
        ),
{
}

/// An execution keeps the ledger consistent and its records in place.
pub proof fn law_execute_proposal_keeps(pre: ContractView, env: Env, id: u64)
    requires
        consistent(pre),
        execute_proposal_spec(pre, env, id) is Ok,
    ensures
        consistent(execute_proposal_spec(pre, env, id)->Ok_0),
        extends(pre, execute_proposal_spec(pre, env, id)->Ok_0),
{
    lemma_execute_keeps(pre, env, id, pre.proposals[id]);
}

/// Where every id names an escrow, the listing has one escrow for each id,
/// in the order of the ids.
proof fn lemma_listed_all(ids: Seq<Seq<char>>, escrows: Map<Seq<char>, EscrowView>)
    requires
        forall|i: int| 0 <= i < ids.len() ==> escrows.contains_key(#[trigger] ids[i]),
    ensures
        listed(ids, escrows).len() == ids.len(),
        forall|i: int| 0 <= i < ids.len() ==> #[trigger] listed(ids, escrows)[i] == escrows[ids[i]],
    decreases ids.len(),
{
    if ids.len() > 0 {
        assert(escrows.contains_key(ids[ids.len() - 1]));
        assert forall|i: int| 0 <= i < ids.drop_last().len() implies escrows.contains_key(
            #[trigger] ids.drop_last()[i],
        ) by {
            assert(ids.drop_last()[i] == ids[i]);
        }
        lemma_listed_all(ids.drop_last(), escrows);
        assert forall|i: int| 0 <= i < ids.len() implies #[trigger] listed(ids, escrows)[i]
            == escrows[ids[i]] by {
            if i < ids.len() - 1 {
                assert(listed(ids.drop_last(), escrows)[i] == escrows[ids.drop_last()[i]]);
            }
        }
    }
}

/// In a consistent ledger the listing for an identity is its reverse
/// index read out: one escrow for each id, each of them an escrow that the
/// identity is a party to, no escrow twice, and every escrow that it is a
/// party to among them.
pub proof fn law_listing_is_the_parties_own(s: ContractView, who: Address)
    requires
        consistent(s),
    ensures
        ({
            let ids = ids_of(s.user_escrows, who);
            let list = listed(ids, s.escrows);
            &&& list.len() == ids.len()
            &&& forall|i: int|
                0 <= i < list.len() ==> {
                    &&& #[trigger] list[i] == s.escrows[ids[i]]
                    &&& list[i].id == ids[i]
                    &&& is_party(list[i], who)
                }
            &&& forall|i: int, j: int|
                0 <= i < list.len() && 0 <= j < list.len() && i != j ==> (
                #[trigger] list[i]).id != (#[trigger] list[j]).id
            &&& forall|k: Seq<char>| #[trigger]
                s.escrows.contains_key(k) && is_party(s.escrows[k], who) ==> list.contains(
                    s.escrows[k],
                )
        }),
{
    let ids = ids_of(s.user_escrows, who);
    let list = listed(ids, s.escrows);
    lemma_listed_all(ids, s.escrows);
    assert forall|i: int| 0 <= i < list.len() implies {
        &&& #[trigger] list[i] == s.escrows[ids[i]]
        &&& list[i].id == ids[i]
        &&& is_party(list[i], who)
    } by {
        assert(s.escrows.contains_key(ids[i]));
    }
    assert forall|i: int, j: int|
        0 <= i < list.len() && 0 <= j < list.len() && i != j implies (#[trigger] list[i]).id != (
    #[trigger] list[j]).id by {
        assert(ids.no_duplicates());
        assert(s.escrows.contains_key(ids[i]));
        assert(s.escrows.contains_key(ids[j]));
        assert(list[i].id == ids[i]);
        assert(list[j].id == ids[j]);
    }
    assert forall|k: Seq<char>| #[trigger]
        s.escrows.contains_key(k) && is_party(s.escrows[k], who) implies list.contains(
        s.escrows[k],
    ) by {
        assert(ids.contains(k));
        let i = choose|i: int| 0 <= i < ids.len() && ids[i] == k;
        assert(list[i] == s.escrows[k]);
    }
}

} // verus!
