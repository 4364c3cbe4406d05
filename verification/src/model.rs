//! The ledger as mathematics: its state as maps and sequences, and each
//! operation as a function from the state before to the state after, or to
//! the error that leaves the state as it was.

use vstd::prelude::*;
use crate::amount::parse_amount_spec;
use crate::events::{
    AdminSignerAdded, AdminSignerRemoved, EventView, ProposalApproved, ProposalCreated,
    ProposalExecuted, ThresholdChanged,
};
use crate::status::{escrow_status_spec, milestone_status_spec};
use crate::text::decimal_spec;
use crate::types::{
    Address, Balance, Env, EscrowError, EscrowStatus, EscrowView, EvidenceView,
    MilestoneInputView, MilestoneStatus, MilestoneView, ProposalAction, ProposalView,
    TokenTransfer, MAX_APPROVALS, MAX_EVIDENCE_FILES, MAX_FEE_BPS, MAX_MILESTONES,
    MAX_STRING_LENGTH,
};

verus! {

/// Model of the whole ledger.
pub ghost struct ContractView {
    pub owner: Address,
    pub fee_bps: u16,
    pub fee_account: Address,
    pub escrow_counter: u64,
    pub escrows: Map<Seq<char>, EscrowView>,
    pub user_escrows: Map<Address, Seq<Seq<char>>>,
    pub escrow_deposits: Map<Seq<char>, Balance>,
    pub paused: bool,
    pub usdt_token: Address,
    pub default_duration: u64,
    pub total_volume: u128,
    pub token_decimals: u8,
    pub admin_signers: Seq<Address>,
    pub signature_threshold: u8,
    pub proposal_counter: u64,
    pub proposals: Map<u64, ProposalView>,
    pub events: Seq<EventView>,
}

/// The state of a ledger that was just set up by `caller`.
pub open spec fn initial_state(
    caller: Address,
    usdt_token: Address,
    fee_account: Address,
) -> ContractView {
    ContractView {
        owner: caller,
        fee_bps: 100,
        fee_account,
        escrow_counter: 0,
        escrows: Map::empty(),
        user_escrows: Map::empty(),
        escrow_deposits: Map::empty(),
        paused: false,
        usdt_token,
        default_duration: 7_776_000_000,
        total_volume: 0,
        token_decimals: 6,
        admin_signers: seq![caller],
        signature_threshold: 1,
        proposal_counter: 0,
        proposals: Map::empty(),
        events: Seq::empty(),
    }
}

/// Length of `s` in bytes of UTF-8.
pub open spec fn byte_len(s: Seq<char>) -> nat {
    vstd::utf8::encode_utf8(s).len()
}

pub open spec fn escrow_id_spec(n: nat) -> Seq<char> {
    "escrow_"@ + decimal_spec(n)
}

pub open spec fn dispute_id_spec(escrow_id: Seq<char>, milestone_id: Seq<char>) -> Seq<char> {
    "dispute_"@ + escrow_id + "_"@ + milestone_id
}

pub open spec fn notification_id_spec(escrow_id: Seq<char>, timestamp: u64) -> Seq<char> {
    "notif_"@ + escrow_id + "_"@ + decimal_spec(timestamp as nat)
}

pub open spec fn tx_hash_spec(timestamp: u64) -> Seq<char> {
    "tx_"@ + decimal_spec(timestamp as nat)
}

/// `who` is the creator or the counterparty of `e`.
pub open spec fn is_party(e: EscrowView, who: Address) -> bool {
    who == e.creator_address || who == e.counterparty_address
}

/// `i` is where the first milestone with the id `id` stands.
pub open spec fn first_match(ms: Seq<MilestoneView>, id: Seq<char>, i: int) -> bool {
    &&& 0 <= i < ms.len()
    &&& ms[i].id == id
    &&& forall|j: int| 0 <= j < i ==> (#[trigger] ms[j]).id != id
}

/// Where the first milestone with the id `id` stands, if there is one.
pub open spec fn milestone_position(ms: Seq<MilestoneView>, id: Seq<char>) -> Option<int> {
    if exists|i: int| first_match(ms, id, i) {
        Some(choose|i: int| first_match(ms, id, i))
    } else {
        None
    }
}

pub open spec fn all_completed(ms: Seq<MilestoneView>) -> bool {
    forall|i: int| 0 <= i < ms.len() ==> (#[trigger] ms[i]).status == MilestoneStatus::Completed
}

/// The platform fee on `amount` at `fee_bps` basis points, rounded down.
pub open spec fn fee_spec(amount: nat, fee_bps: nat) -> nat {
    amount * fee_bps / (MAX_FEE_BPS as nat)
}

/// The ids that the reverse index holds for `who`.
pub open spec fn ids_of(index: Map<Address, Seq<Seq<char>>>, who: Address) -> Seq<Seq<char>> {
    if index.contains_key(who) {
        index[who]
    } else {
        Seq::empty()
    }
}

/// The reverse index with `id` appended to the ids of `who`.
pub open spec fn index_add(index: Map<Address, Seq<Seq<char>>>, who: Address, id: Seq<char>) -> Map<
    Address,
    Seq<Seq<char>>,
> {
    index.insert(who, ids_of(index, who).push(id))
}

/// The cumulative deposit recorded for the escrow `id`.
pub open spec fn deposit_of(deposits: Map<Seq<char>, Balance>, id: Seq<char>) -> Balance {
    if deposits.contains_key(id) {
        deposits[id]
    } else {
        0
    }
}

/// Why a milestone input is refused, if it is.
pub open spec fn input_error(m: MilestoneInputView) -> Option<EscrowError> {
    if milestone_status_spec(m.status) is None {
        Some(EscrowError::InvalidStatus)
    } else if m.evidence_file is Some && m.evidence_file->0.len() > MAX_EVIDENCE_FILES {
        Some(EscrowError::StorageLimitExceeded)
    } else {
        None
    }
}

/// The error of the first milestone input that is refused.
pub open spec fn first_input_error(ms: Seq<MilestoneInputView>) -> Option<EscrowError>
    decreases ms.len(),
{
    if ms.len() == 0 {
        None
    } else if input_error(ms.first()) is Some {
        input_error(ms.first())
    } else {
        first_input_error(ms.drop_first())
    }
}

/// The evidence that a list of URLs stands for: one entry each, without a
/// name.
pub open spec fn evidence_of_urls(urls: Seq<Seq<char>>) -> Seq<EvidenceView> {
    Seq::new(urls.len(), |i: int| EvidenceView { name: Seq::empty(), url: urls[i] })
}

/// The milestone that an accepted input stands for.
pub open spec fn milestone_of_input(m: MilestoneInputView) -> MilestoneView {
    MilestoneView {
        id: m.id,
        description: m.description,
        amount: m.amount,
        status: milestone_status_spec(m.status)->0,
        deadline: m.deadline,
        completed_at: m.completed_at,
        dispute_reason: m.dispute_reason,
        dispute_filed_by: m.dispute_filed_by,
        completion_note: m.completion_note,
        evidence_file: match m.evidence_file {
            Some(urls) => Some(evidence_of_urls(urls)),
            None => None,
        },
    }
}

pub open spec fn milestones_of_inputs(ms: Seq<MilestoneInputView>) -> Seq<MilestoneView> {
    Seq::new(ms.len(), |i: int| milestone_of_input(ms[i]))
}

/// The escrows that a list of ids names, in that order; an id that names
/// none is passed over.
pub open spec fn listed(ids: Seq<Seq<char>>, escrows: Map<Seq<char>, EscrowView>) -> Seq<
    EscrowView,
>
    decreases ids.len(),
{
    if ids.len() == 0 {
        Seq::empty()
    } else if escrows.contains_key(ids.last()) {
        listed(ids.drop_last(), escrows).push(escrows[ids.last()])
    } else {
        listed(ids.drop_last(), escrows)
    }
}

/// The state with `e` stored under `id` and `event` recorded.
pub open spec fn store_escrow(
    pre: ContractView,
    id: Seq<char>,
    e: EscrowView,
    event: EventView,
) -> ContractView {
    ContractView { escrows: pre.escrows.insert(id, e), events: pre.events.push(event), ..pre }
}

/// `e` with its milestone at `i` replaced.
pub open spec fn with_milestone(e: EscrowView, i: int, m: MilestoneView) -> EscrowView {
    EscrowView { milestones: e.milestones.update(i, m), ..e }
}

/// Why a call that needs the escrow `id` and a party to it is refused, if
/// it is.
pub open spec fn party_error(pre: ContractView, caller: Address, id: Seq<char>) -> Option<
    EscrowError,
> {
    if pre.paused {
        Some(EscrowError::ContractPaused)
    } else if !pre.escrows.contains_key(id) {
        Some(EscrowError::EscrowNotFound)
    } else if !is_party(pre.escrows[id], caller) {
        Some(EscrowError::Unauthorized)
    } else {
        None
    }
}

/// Why a call that needs a milestone of the escrow `id` and a party to the
/// escrow is refused, if it is.
pub open spec fn milestone_error(
    pre: ContractView,
    caller: Address,
    id: Seq<char>,
    milestone_id: Seq<char>,
) -> Option<EscrowError> {
    if party_error(pre, caller, id) is Some {
        party_error(pre, caller, id)
    } else if milestone_position(pre.escrows[id].milestones, milestone_id) is None {
        Some(EscrowError::MilestoneNotFound)
    } else {
        None
    }
}

pub open spec fn create_escrow_spec(
    pre: ContractView,
    env: Env,
    counterparty: Address,
    counterparty_type: Seq<char>,
    status: Seq<char>,
    title: Seq<char>,
    description: Seq<char>,
    total_amount: Seq<char>,
    inputs: Seq<MilestoneInputView>,
    transaction_hash: Option<Seq<char>>,
) -> Result<ContractView, EscrowError> {
    if pre.paused {
        Err(EscrowError::ContractPaused)
    } else if inputs.len() > MAX_MILESTONES {
        Err(EscrowError::StorageLimitExceeded)
    } else if byte_len(title) > MAX_STRING_LENGTH {
        Err(EscrowError::StorageLimitExceeded)
    } else if byte_len(description) > MAX_STRING_LENGTH {
        Err(EscrowError::StorageLimitExceeded)
    } else if pre.escrow_counter == u64::MAX {
        Err(EscrowError::ArithmeticOverflow)
    } else if escrow_status_spec(status) is None {
        Err(EscrowError::InvalidEscrowStatus)
    } else if first_input_error(inputs) is Some {
        Err(first_input_error(inputs)->0)
    } else {
        let id = escrow_id_spec((pre.escrow_counter + 1) as nat);
        let e = EscrowView {
            id,
            creator_address: env.caller,
            counterparty_address: counterparty,
            counterparty_type,
            title,
            description,
            total_amount,
            status: escrow_status_spec(status)->0,
            created_at: env.block_timestamp,
            milestones: milestones_of_inputs(inputs),
            transaction_hash,
        };
        Ok(
            ContractView {
                escrow_counter: (pre.escrow_counter + 1) as u64,
                escrows: pre.escrows.insert(id, e),
                user_escrows: if counterparty == env.caller {
                    index_add(pre.user_escrows, env.caller, id)
                } else {
                    index_add(index_add(pre.user_escrows, env.caller, id), counterparty, id)
                },
                events: pre.events.push(
                    EventView::EscrowCreated {
                        escrow_id: id,
                        creator: env.caller,
                        counterparty,
                        counterparty_type,
                        title,
                        total_amount,
                        transaction_hash,
                    },
                ),
                ..pre
            },
        )
    }
}

pub open spec fn update_escrow_status_spec(
    pre: ContractView,
    env: Env,
    id: Seq<char>,
    new_status: Seq<char>,
    transaction_hash: Option<Seq<char>>,
) -> Result<ContractView, EscrowError> {
    if party_error(pre, env.caller, id) is Some {
        Err(party_error(pre, env.caller, id)->0)
    } else if escrow_status_spec(new_status) is None {
        Err(EscrowError::InvalidEscrowStatus)
    } else {
        let e = pre.escrows[id];
        let status = escrow_status_spec(new_status)->0;
        Ok(
            store_escrow(
                pre,
                id,
                EscrowView {
                    status,
                    transaction_hash: if transaction_hash is Some {
                        transaction_hash
                    } else {
                        e.transaction_hash
                    },
                    ..e
                },
                EventView::EscrowStatusChanged {
                    escrow_id: id,
                    old_status: e.status,
                    new_status: status,
                    transaction_hash,
                },
            ),
        )
    }
}

pub open spec fn update_escrow_milestone_status_spec(
    pre: ContractView,
    env: Env,
    id: Seq<char>,
    milestone_id: Seq<char>,
    new_status: Seq<char>,
) -> Result<ContractView, EscrowError> {
    if milestone_error(pre, env.caller, id, milestone_id) is Some {
        Err(milestone_error(pre, env.caller, id, milestone_id)->0)
    } else if milestone_status_spec(new_status) is None {
        Err(EscrowError::InvalidStatus)
    } else {
        let e = pre.escrows[id];
        let i = milestone_position(e.milestones, milestone_id)->0;
        let m = e.milestones[i];
        let status = milestone_status_spec(new_status)->0;
        Ok(
            store_escrow(
                pre,
                id,
                with_milestone(
                    e,
                    i,
                    MilestoneView {
                        status,
                        completed_at: if status == MilestoneStatus::Completed {
                            Some(env.block_timestamp)
                        } else {
                            m.completed_at
                        },
                        ..m
                    },
                ),
                EventView::MilestoneStatusChanged {
                    escrow_id: id,
                    milestone_id,
                    old_status: m.status,
                    new_status: status,
                },
            ),
        )
    }
}

/// The cumulative total that a deposit of `amount` for the escrow `id`
/// would bring, where nothing stands against recording it but, possibly, the
/// custody balance; else the first error: the ledger is paused, the escrow
/// is unknown, the amount is no amount, the total does not fit in 128 bits.
pub open spec fn deposit_precheck_spec(
    pre: ContractView,
    id: Seq<char>,
    amount: Seq<char>,
) -> Result<Balance, EscrowError> {
    if pre.paused {
        Err(EscrowError::ContractPaused)
    } else if !pre.escrows.contains_key(id) {
        Err(EscrowError::EscrowNotFound)
    } else if parse_amount_spec(amount, pre.token_decimals as nat) is Err {
        Err(EscrowError::InvalidAmount)
    } else if deposit_of(pre.escrow_deposits, id) + parse_amount_spec(
        amount,
        pre.token_decimals as nat,
    )->Ok_0 > u128::MAX {
        Err(EscrowError::ArithmeticOverflow)
    } else {
        Ok(
            (deposit_of(pre.escrow_deposits, id) + parse_amount_spec(
                amount,
                pre.token_decimals as nat,
            )->Ok_0) as u128,
        )
    }
}

pub open spec fn notify_deposit_spec(
    pre: ContractView,
    id: Seq<char>,
    amount: Seq<char>,
    custody_balance: Balance,
) -> Result<ContractView, EscrowError> {
    match deposit_precheck_spec(pre, id, amount) {
        Err(e) => Err(e),
        Ok(total) => if custody_balance < total {
            Err(EscrowError::InsufficientBalance)
        } else {
            Ok(ContractView { escrow_deposits: pre.escrow_deposits.insert(id, total), ..pre })
        },
    }
}

pub open spec fn complete_milestone_task_spec(
    pre: ContractView,
    env: Env,
    id: Seq<char>,
    milestone_id: Seq<char>,
    completion_note: Option<Seq<char>>,
    evidence_file: Option<Seq<EvidenceView>>,
) -> Result<ContractView, EscrowError> {
    if pre.paused {
        Err(EscrowError::ContractPaused)
    } else if !pre.escrows.contains_key(id) {
        Err(EscrowError::EscrowNotFound)
    } else if env.caller != pre.escrows[id].counterparty_address {
        Err(EscrowError::Unauthorized)
    } else if milestone_position(pre.escrows[id].milestones, milestone_id) is None {
        Err(EscrowError::MilestoneNotFound)
    } else {
        let e = pre.escrows[id];
        let i = milestone_position(e.milestones, milestone_id)->0;
        let m = e.milestones[i];
        if m.status != MilestoneStatus::InProgress {
            Err(EscrowError::InvalidStatus)
        } else {
            Ok(
                store_escrow(
                    pre,
                    id,
                    with_milestone(
                        e,
                        i,
                        MilestoneView {
                            status: MilestoneStatus::Done,
                            completed_at: Some(env.block_timestamp),
                            completion_note: if completion_note is Some {
                                completion_note
                            } else {
                                m.completion_note
                            },
                            evidence_file: if evidence_file is Some {
                                evidence_file
                            } else {
                                m.evidence_file
                            },
                            ..m
                        },
                    ),
                    EventView::MilestoneStatusChanged {
                        escrow_id: id,
                        milestone_id,
                        old_status: MilestoneStatus::InProgress,
                        new_status: MilestoneStatus::Done,
                    },
                ),
            )
        }
    }
}

/// The amount that a release of the milestone has to cover, where nothing
/// stands against the release but, possibly, the custody balance; else the
/// first error, the checks coming in this order: the ledger is paused, the
/// escrow is unknown, the caller is no party to it, the milestone is
/// unknown, the milestone is `Funded` or `Completed` already, its amount is
/// no amount, the fee is over the limit, the fee does not fit in 128 bits,
/// the deposit of the escrow is less than the amount, the volume would not
/// fit in 128 bits.
pub open spec fn release_precheck_spec(
    pre: ContractView,
    env: Env,
    id: Seq<char>,
    milestone_id: Seq<char>,
) -> Result<Balance, EscrowError> {
    if milestone_error(pre, env.caller, id, milestone_id) is Some {
        Err(milestone_error(pre, env.caller, id, milestone_id)->0)
    } else {
        let e = pre.escrows[id];
        let m = e.milestones[milestone_position(e.milestones, milestone_id)->0];
        let parsed = parse_amount_spec(m.amount, pre.token_decimals as nat);
        if m.status == MilestoneStatus::Funded || m.status == MilestoneStatus::Completed {
            Err(EscrowError::InvalidStatus)
        } else if parsed is Err {
            Err(EscrowError::InvalidAmount)
        } else if pre.fee_bps > MAX_FEE_BPS {
            Err(EscrowError::FeeTooHigh)
        } else if parsed->Ok_0 * pre.fee_bps > u128::MAX {
            Err(EscrowError::ArithmeticOverflow)
        } else if deposit_of(pre.escrow_deposits, id) < parsed->Ok_0 {
            Err(EscrowError::InsufficientBalance)
        } else if pre.total_volume + parsed->Ok_0 > u128::MAX {
            Err(EscrowError::ArithmeticOverflow)
        } else {
            Ok(parsed->Ok_0)
        }
    }
}

/// Why a release is refused, if it is: for what `release_precheck_spec`
/// finds; else because the custody balance is less than the amount. The
/// custody balance is the last thing looked at.
pub open spec fn release_error(
    pre: ContractView,
    env: Env,
    id: Seq<char>,
    milestone_id: Seq<char>,
    custody_balance: Balance,
) -> Option<EscrowError> {
    match release_precheck_spec(pre, env, id, milestone_id) {
        Err(e) => Some(e),
        Ok(amount) => if custody_balance < amount {
            Some(EscrowError::InsufficientBalance)
        } else {
            None
        },
    }
}

/// The base units of the milestone that a release is about.
pub open spec fn release_amount_spec(
    pre: ContractView,
    id: Seq<char>,
    milestone_id: Seq<char>,
) -> Balance {
    let e = pre.escrows[id];
    let m = e.milestones[milestone_position(e.milestones, milestone_id)->0];
    parse_amount_spec(m.amount, pre.token_decimals as nat)->Ok_0
}

pub open spec fn release_milestone_spec(
    pre: ContractView,
    env: Env,
    id: Seq<char>,
    milestone_id: Seq<char>,
    custody_balance: Balance,
) -> Result<ContractView, EscrowError> {
    if release_error(pre, env, id, milestone_id, custody_balance) is Some {
        Err(release_error(pre, env, id, milestone_id, custody_balance)->0)
    } else {
        let e = pre.escrows[id];
        let i = milestone_position(e.milestones, milestone_id)->0;
        let m = e.milestones[i];
        let amount = release_amount_spec(pre, id, milestone_id);
        Ok(
            ContractView {
                escrows: pre.escrows.insert(
                    id,
                    with_milestone(e, i, MilestoneView { status: MilestoneStatus::Funded, ..m }),
                ),
                total_volume: (pre.total_volume + amount) as u128,
                escrow_deposits: pre.escrow_deposits.insert(
                    id,
                    (deposit_of(pre.escrow_deposits, id) - amount) as u128,
                ),
                events: pre.events.push(
                    EventView::MilestoneReleased {
                        escrow_id: id,
                        milestone_id,
                        receiver_account_id: e.counterparty_address,
                        payer_account_id: e.creator_address,
                        amount: m.amount,
                        transaction_hash: tx_hash_spec(env.block_timestamp),
                    },
                ),
                ..pre
            },
        )
    }
}

/// The payout that a release owes: the amount less the fee, to the
/// counterparty.
pub open spec fn payout_spec(
    pre: ContractView,
    id: Seq<char>,
    milestone_id: Seq<char>,
) -> TokenTransfer {
    let amount = release_amount_spec(pre, id, milestone_id);
    TokenTransfer {
        token: pre.usdt_token,
        to: pre.escrows[id].counterparty_address,
        value: (amount - fee_spec(amount as nat, pre.fee_bps as nat)) as u128,
    }
}

/// The fee transfer that a release owes, where the fee is not zero.
pub open spec fn fee_transfer_spec(
    pre: ContractView,
    id: Seq<char>,
    milestone_id: Seq<char>,
) -> Option<TokenTransfer> {
    let amount = release_amount_spec(pre, id, milestone_id);
    let fee = fee_spec(amount as nat, pre.fee_bps as nat);
    if fee > 0 {
        Some(TokenTransfer { token: pre.usdt_token, to: pre.fee_account, value: fee as u128 })
    } else {
        None
    }
}

/// An escrow that the completion check promotes: not yet `Completed`, with
/// at least one milestone, and all of them `Completed`.
pub open spec fn completes(e: EscrowView) -> bool {
    e.status != EscrowStatus::Completed && all_completed(e.milestones) && e.milestones.len() > 0
}

/// The state after the completion check on the escrow `id`: an escrow that
/// the check promotes becomes `Completed`, and that is recorded. Any other
/// state stays as it is.
pub open spec fn completion_check_spec(pre: ContractView, id: Seq<char>) -> ContractView {
    let e = pre.escrows[id];
    if pre.escrows.contains_key(id) && completes(e) {
        store_escrow(
            pre,
            id,
            EscrowView { status: EscrowStatus::Completed, ..e },
            EventView::EscrowStatusChanged {
                escrow_id: id,
                old_status: e.status,
                new_status: EscrowStatus::Completed,
                transaction_hash: None,
            },
        )
    } else {
        pre
    }
}

pub open spec fn complete_milestone_spec(
    pre: ContractView,
    env: Env,
    id: Seq<char>,
    milestone_id: Seq<char>,
) -> Result<ContractView, EscrowError> {
    if milestone_error(pre, env.caller, id, milestone_id) is Some {
        Err(milestone_error(pre, env.caller, id, milestone_id)->0)
    } else {
        let e = pre.escrows[id];
        let i = milestone_position(e.milestones, milestone_id)->0;
        let m = e.milestones[i];
        if m.status != MilestoneStatus::Funded {
            Err(EscrowError::InvalidStatus)
        } else {
            Ok(
                completion_check_spec(
                    store_escrow(
                        pre,
                        id,
                        with_milestone(
                            e,
                            i,
                            MilestoneView { status: MilestoneStatus::Completed, ..m },
                        ),
                        EventView::MilestoneStatusChanged {
                            escrow_id: id,
                            milestone_id,
                            old_status: MilestoneStatus::Funded,
                            new_status: MilestoneStatus::Completed,
                        },
                    ),
                    id,
                ),
            )
        }
    }
}

pub open spec fn dispute_milestone_spec(
    pre: ContractView,
    env: Env,
    id: Seq<char>,
    milestone_id: Seq<char>,
    reason: Seq<char>,
) -> Result<ContractView, EscrowError> {
    if milestone_error(pre, env.caller, id, milestone_id) is Some {
        Err(milestone_error(pre, env.caller, id, milestone_id)->0)
    } else {
        let e = pre.escrows[id];
        let i = milestone_position(e.milestones, milestone_id)->0;
        let m = e.milestones[i];
        Ok(
            store_escrow(
                pre,
                id,
                with_milestone(
                    e,
                    i,
                    MilestoneView {
                        status: MilestoneStatus::Disputed,
                        dispute_reason: Some(reason),
                        dispute_filed_by: Some(env.caller),
                        ..m
                    },
                ),
                EventView::MilestoneDisputed {
                    escrow_id: id,
                    milestone_id,
                    filed_by: env.caller,
                    reason,
                    dispute_id: dispute_id_spec(id, milestone_id),
                },
            ),
        )
    }
}

pub open spec fn notify_counterparty_spec(
    pre: ContractView,
    env: Env,
    id: Seq<char>,
    notification_type: Seq<char>,
    recipient: Address,
) -> Result<ContractView, EscrowError> {
    if party_error(pre, env.caller, id) is Some {
        Err(party_error(pre, env.caller, id)->0)
    } else {
        Ok(
            ContractView {
                events: pre.events.push(
                    EventView::CounterpartyNotified {
                        escrow_id: id,
                        notification_type,
                        sender_account_id: env.caller,
                        recipient_account_id: recipient,
                        notification_id: notification_id_spec(id, env.block_timestamp),
                    },
                ),
                ..pre
            },
        )
    }
}

/// `i` is where `who` first stands among `signers`.
pub open spec fn first_signer(signers: Seq<Address>, who: Address, i: int) -> bool {
    &&& 0 <= i < signers.len()
    &&& signers[i] == who
    &&& forall|j: int| 0 <= j < i ==> #[trigger] signers[j] != who
}

/// Where `who` first stands among `signers`, for one who is among them.
pub open spec fn signer_index(signers: Seq<Address>, who: Address) -> int {
    choose|i: int| first_signer(signers, who, i)
}

/// Why an action cannot be carried out in the state `pre`, if it cannot.
pub open spec fn action_error(pre: ContractView, action: ProposalAction) -> Option<EscrowError> {
    match action {
        ProposalAction::SetFee(fee_bps) => if fee_bps > MAX_FEE_BPS {
            Some(EscrowError::FeeTooHigh)
        } else {
            None
        },
        ProposalAction::RemoveSigner(signer) => {
            let left = if pre.admin_signers.contains(signer) {
                pre.admin_signers.len() - 1
            } else {
                pre.admin_signers.len() as int
            };
            if left < pre.signature_threshold {
                Some(EscrowError::Unauthorized)
            } else {
                None
            }
        },
        ProposalAction::SetThreshold(threshold) => if threshold == 0 || threshold
            > pre.admin_signers.len() {
            Some(EscrowError::Unauthorized)
        } else {
            None
        },
        ProposalAction::EmergencyWithdraw(_, _) => Some(EscrowError::InvalidStatus),
        _ => None,
    }
}

/// The state after an action that can be carried out, on behalf of the
/// proposal's creator `by`.
pub open spec fn apply_action(
    pre: ContractView,
    action: ProposalAction,
    by: Address,
) -> ContractView {
    match action {
        ProposalAction::SetFee(fee_bps) => ContractView { fee_bps, ..pre },
        ProposalAction::SetUsdtToken(token) => ContractView { usdt_token: token, ..pre },
        ProposalAction::SetTokenDecimals(decimals) => ContractView {
            token_decimals: decimals,
            ..pre
        },
        ProposalAction::AddSigner(signer) => if pre.admin_signers.contains(signer) {
            pre
        } else {
            ContractView {
                admin_signers: pre.admin_signers.push(signer),
                events: pre.events.push(
                    EventView::AdminSignerAdded(AdminSignerAdded { signer, added_by: by }),
                ),
                ..pre
            }
        },
        ProposalAction::RemoveSigner(signer) => if pre.admin_signers.contains(signer) {
            ContractView {
                admin_signers: pre.admin_signers.remove(signer_index(pre.admin_signers, signer)),
                events: pre.events.push(
                    EventView::AdminSignerRemoved(AdminSignerRemoved { signer, removed_by: by }),
                ),
                ..pre
            }
        } else {
            pre
        },
        ProposalAction::SetThreshold(threshold) => ContractView {
            signature_threshold: threshold,
            events: pre.events.push(
                EventView::ThresholdChanged(
                    ThresholdChanged {
                        old_threshold: pre.signature_threshold,
                        new_threshold: threshold,
                        changed_by: by,
                    },
                ),
            ),
            ..pre
        },
        ProposalAction::PauseContract => ContractView { paused: true, ..pre },
        ProposalAction::UnpauseContract => ContractView { paused: false, ..pre },
        ProposalAction::EmergencyWithdraw(_, _) => pre,
    }
}

/// Carrying out the proposal `p`, which is stored under `id` afterwards: the
/// action is applied, the proposal is marked as executed at the time of the
/// call, and the execution is recorded.
pub open spec fn execute_spec(pre: ContractView, env: Env, id: u64, p: ProposalView) -> Result<
    ContractView,
    EscrowError,
> {
    if p.executed {
        Err(EscrowError::InvalidStatus)
    } else if action_error(pre, p.action) is Some {
        Err(action_error(pre, p.action)->0)
    } else {
        let applied = apply_action(pre, p.action, p.created_by);
        Ok(
            ContractView {
                proposals: applied.proposals.insert(
                    id,
                    ProposalView {
                        executed: true,
                        executed_at: Some(env.block_timestamp),
                        ..p
                    },
                ),
                events: applied.events.push(
                    EventView::ProposalExecuted(
                        ProposalExecuted { proposal_id: id, executed_by: env.caller },
                    ),
                ),
                ..applied
            },
        )
    }
}

pub open spec fn submit_proposal_spec(
    pre: ContractView,
    env: Env,
    action: ProposalAction,
) -> Result<ContractView, EscrowError> {
    if !pre.admin_signers.contains(env.caller) {
        Err(EscrowError::Unauthorized)
    } else if pre.proposal_counter == u64::MAX {
        Err(EscrowError::ArithmeticOverflow)
    } else {
        let id = (pre.proposal_counter + 1) as u64;
        let p = ProposalView {
            id,
            action,
            created_by: env.caller,
            created_at: env.block_timestamp,
            approvals: seq![env.caller],
            executed: false,
            executed_at: None,
        };
        let created = ContractView {
            proposal_counter: id,
            proposals: pre.proposals.insert(id, p),
            events: pre.events.push(
                EventView::ProposalCreated(
                    ProposalCreated { proposal_id: id, action, created_by: env.caller },
                ),
            ),
            ..pre
        };
        if 1 >= pre.signature_threshold && execute_spec(created, env, id, p) is Ok {
            execute_spec(created, env, id, p)
        } else {
            Ok(created)
        }
    }
}

pub open spec fn approve_proposal_spec(pre: ContractView, env: Env, id: u64) -> Result<
    ContractView,
    EscrowError,
> {
    if !pre.admin_signers.contains(env.caller) {
        Err(EscrowError::Unauthorized)
    } else if !pre.proposals.contains_key(id) {
        Err(EscrowError::EscrowNotFound)
    } else if pre.proposals[id].executed {
        Err(EscrowError::InvalidStatus)
    } else if pre.proposals[id].approvals.contains(env.caller) {
        Err(EscrowError::InvalidStatus)
    } else if pre.proposals[id].approvals.len() >= MAX_APPROVALS {
        Err(EscrowError::ArithmeticOverflow)
    } else {
        let p = ProposalView {
            approvals: pre.proposals[id].approvals.push(env.caller),
            ..pre.proposals[id]
        };
        let approved = ContractView {
            proposals: pre.proposals.insert(id, p),
            events: pre.events.push(
                EventView::ProposalApproved(
                    ProposalApproved {
                        proposal_id: id,
                        approved_by: env.caller,
                        approvals_count: p.approvals.len() as u8,
                    },
                ),
            ),
            ..pre
        };
        if p.approvals.len() >= pre.signature_threshold {
            execute_spec(approved, env, id, p)
        } else {
            Ok(approved)
        }
    }
}

pub open spec fn execute_proposal_spec(pre: ContractView, env: Env, id: u64) -> Result<
    ContractView,
    EscrowError,
> {
    if !pre.proposals.contains_key(id) {
        Err(EscrowError::EscrowNotFound)
    } else if pre.proposals[id].executed {
        Err(EscrowError::InvalidStatus)
    } else if pre.proposals[id].approvals.len() < pre.signature_threshold {
        Err(EscrowError::Unauthorized)
    } else {
        execute_spec(pre, env, id, pre.proposals[id])
    }
}

} // verus!
