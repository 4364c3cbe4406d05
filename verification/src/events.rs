//! The events that the ledger records for off-chain indexers, in the order in
//! which they happened.

use vstd::prelude::*;
use crate::types::{Address, EscrowStatus, MilestoneStatus, ProposalAction};

verus! {

#[derive(Debug, PartialEq, Eq)]
pub struct EscrowCreated {
    pub escrow_id: String,
    pub creator: Address,
    pub counterparty: Address,
    pub counterparty_type: String,
    pub title: String,
    pub total_amount: String,
    pub transaction_hash: Option<String>,
}

#[derive(Debug, PartialEq, Eq)]
pub struct EscrowStatusChanged {
    pub escrow_id: String,
    pub old_status: EscrowStatus,
    pub new_status: EscrowStatus,
    pub transaction_hash: Option<String>,
}

#[derive(Debug, PartialEq, Eq)]
pub struct MilestoneStatusChanged {
    pub escrow_id: String,
    pub milestone_id: String,
    pub old_status: MilestoneStatus,
    pub new_status: MilestoneStatus,
}

#[derive(Debug, PartialEq, Eq)]
pub struct MilestoneReleased {
    pub escrow_id: String,
    pub milestone_id: String,
    pub receiver_account_id: Address,
    pub payer_account_id: Address,
    pub amount: String,
    pub transaction_hash: String,
}

#[derive(Debug, PartialEq, Eq)]
pub struct MilestoneDisputed {
    pub escrow_id: String,
    pub milestone_id: String,
    pub filed_by: Address,
    pub reason: String,
    pub dispute_id: String,
}

#[derive(Debug, PartialEq, Eq)]
pub struct CounterpartyNotified {
    pub escrow_id: String,
    pub notification_type: String,
    pub sender_account_id: Address,
    pub recipient_account_id: Address,
    pub notification_id: String,
}

#[derive(Clone, Copy, Debug, PartialEq, Eq)]
pub struct ProposalCreated {
    pub proposal_id: u64,
    pub action: ProposalAction,
    pub created_by: Address,
}

#[derive(Clone, Copy, Debug, PartialEq, Eq)]
pub struct ProposalApproved {
    pub proposal_id: u64,
    pub approved_by: Address,
    pub approvals_count: u8,
}

#[derive(Clone, Copy, Debug, PartialEq, Eq)]
pub struct ProposalExecuted {
    pub proposal_id: u64,
    pub executed_by: Address,
}

#[derive(Clone, Copy, Debug, PartialEq, Eq)]
pub struct AdminSignerAdded {
    pub signer: Address,
    pub added_by: Address,
}

#[derive(Clone, Copy, Debug, PartialEq, Eq)]
pub struct AdminSignerRemoved {
    pub signer: Address,
    pub removed_by: Address,
}

#[derive(Clone, Copy, Debug, PartialEq, Eq)]
pub struct ThresholdChanged {
    pub old_threshold: u8,
    pub new_threshold: u8,
    pub changed_by: Address,
}

/// One recorded event.
#[derive(Debug, PartialEq, Eq)]
pub enum Event {
    EscrowCreated(EscrowCreated),
    EscrowStatusChanged(EscrowStatusChanged),
    MilestoneStatusChanged(MilestoneStatusChanged),
    MilestoneReleased(MilestoneReleased),
    MilestoneDisputed(MilestoneDisputed),
    CounterpartyNotified(CounterpartyNotified),
    ProposalCreated(ProposalCreated),
    ProposalApproved(ProposalApproved),
    ProposalExecuted(ProposalExecuted),
    AdminSignerAdded(AdminSignerAdded),
    AdminSignerRemoved(AdminSignerRemoved),
    ThresholdChanged(ThresholdChanged),
}

/// Model of an [`Event`].
#[allow(inconsistent_fields)]
pub ghost enum EventView {
    EscrowCreated {
        escrow_id: Seq<char>,
        creator: Address,
        counterparty: Address,
        counterparty_type: Seq<char>,
        title: Seq<char>,
        total_amount: Seq<char>,
        transaction_hash: Option<Seq<char>>,
    },
    EscrowStatusChanged {
        escrow_id: Seq<char>,
        old_status: EscrowStatus,
        new_status: EscrowStatus,
        transaction_hash: Option<Seq<char>>,
    },
    MilestoneStatusChanged {
        escrow_id: Seq<char>,
        milestone_id: Seq<char>,
        old_status: MilestoneStatus,
        new_status: MilestoneStatus,
    },
    MilestoneReleased {
        escrow_id: Seq<char>,
        milestone_id: Seq<char>,
        receiver_account_id: Address,
        payer_account_id: Address,
        amount: Seq<char>,
        transaction_hash: Seq<char>,
    },
    MilestoneDisputed {
        escrow_id: Seq<char>,
        milestone_id: Seq<char>,
        filed_by: Address,
        reason: Seq<char>,
        dispute_id: Seq<char>,
    },
    CounterpartyNotified {
        escrow_id: Seq<char>,
        notification_type: Seq<char>,
        sender_account_id: Address,
        recipient_account_id: Address,
        notification_id: Seq<char>,
    },
    ProposalCreated(ProposalCreated),
    ProposalApproved(ProposalApproved),
    ProposalExecuted(ProposalExecuted),
    AdminSignerAdded(AdminSignerAdded),
    AdminSignerRemoved(AdminSignerRemoved),
    ThresholdChanged(ThresholdChanged),
}

impl View for Event {
    type V = EventView;

    open spec fn view(&self) -> EventView {
        match *self {
            Event::EscrowCreated(e) => EventView::EscrowCreated {
                escrow_id: e.escrow_id@,
                creator: e.creator,
                counterparty: e.counterparty,
                counterparty_type: e.counterparty_type@,
                title: e.title@,
                total_amount: e.total_amount@,
                transaction_hash: e.transaction_hash.deep_view(),
            },
            Event::EscrowStatusChanged(e) => EventView::EscrowStatusChanged {
                escrow_id: e.escrow_id@,
                old_status: e.old_status,
                new_status: e.new_status,
                transaction_hash: e.transaction_hash.deep_view(),
            },
            Event::MilestoneStatusChanged(e) => EventView::MilestoneStatusChanged {
                escrow_id: e.escrow_id@,
                milestone_id: e.milestone_id@,
                old_status: e.old_status,
                new_status: e.new_status,
            },
            Event::MilestoneReleased(e) => EventView::MilestoneReleased {
                escrow_id: e.escrow_id@,
                milestone_id: e.milestone_id@,
                receiver_account_id: e.receiver_account_id,
                payer_account_id: e.payer_account_id,
                amount: e.amount@,
                transaction_hash: e.transaction_hash@,
            },
            Event::MilestoneDisputed(e) => EventView::MilestoneDisputed {
                escrow_id: e.escrow_id@,
                milestone_id: e.milestone_id@,
                filed_by: e.filed_by,
                reason: e.reason@,
                dispute_id: e.dispute_id@,
            },
            Event::CounterpartyNotified(e) => EventView::CounterpartyNotified {
                escrow_id: e.escrow_id@,
                notification_type: e.notification_type@,
                sender_account_id: e.sender_account_id,
                recipient_account_id: e.recipient_account_id,
                notification_id: e.notification_id@,
            },
            Event::ProposalCreated(e) => EventView::ProposalCreated(e),
            Event::ProposalApproved(e) => EventView::ProposalApproved(e),
            Event::ProposalExecuted(e) => EventView::ProposalExecuted(e),
            Event::AdminSignerAdded(e) => EventView::AdminSignerAdded(e),
            Event::AdminSignerRemoved(e) => EventView::AdminSignerRemoved(e),
            Event::ThresholdChanged(e) => EventView::ThresholdChanged(e),
        }
    }
}

impl DeepView for Event {
    type V = EventView;

    open spec fn deep_view(&self) -> EventView {
        self@
    }
}

/// Appends `event` to a record of events.
pub fn record(events: &mut Vec<Event>, event: Event)
    ensures
        final(events).deep_view() == old(events).deep_view().push(event@),
{
    events.push(event);
    proof {
        assert(events.deep_view() =~= old(events).deep_view().push(event@));
    }
}

} // verus!
