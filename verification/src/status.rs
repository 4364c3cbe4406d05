//! The status model: the names by which escrow and milestone states are
//! written, and how text is read back into a state.

use vstd::prelude::*;
use crate::text::text_eq;
use crate::types::{EscrowError, EscrowStatus, MilestoneStatus};

verus! {

/// The escrow state that `s` names, if it names one.
pub open spec fn escrow_status_spec(s: Seq<char>) -> Option<EscrowStatus> {
    if s == "Active"@ {
        Some(EscrowStatus::Active)
    } else if s == "Completed"@ {
        Some(EscrowStatus::Completed)
    } else if s == "Disputed"@ {
        Some(EscrowStatus::Disputed)
    } else if s == "Cancelled"@ {
        Some(EscrowStatus::Cancelled)
    } else if s == "Inactive"@ {
        Some(EscrowStatus::Inactive)
    } else if s == "Pending"@ {
        Some(EscrowStatus::Pending)
    } else if s == "Rejected"@ {
        Some(EscrowStatus::Rejected)
    } else {
        None
    }
}

/// The milestone state that `s` names, if it names one.
pub open spec fn milestone_status_spec(s: Seq<char>) -> Option<MilestoneStatus> {
    if s == "Pending"@ {
        Some(MilestoneStatus::Pending)
    } else if s == "InProgress"@ {
        Some(MilestoneStatus::InProgress)
    } else if s == "Done"@ {
        Some(MilestoneStatus::Done)
    } else if s == "Funded"@ {
        Some(MilestoneStatus::Funded)
    } else if s == "Completed"@ {
        Some(MilestoneStatus::Completed)
    } else if s == "Disputed"@ {
        Some(MilestoneStatus::Disputed)
    } else if s == "Overdue"@ {
        Some(MilestoneStatus::Overdue)
    } else {
        None
    }
}

/// Reads an escrow state from its name. Any other text is refused with
/// `InvalidEscrowStatus`.
pub fn parse_escrow_status(status: &str) -> (r: Result<EscrowStatus, EscrowError>)
    ensures
        r == match escrow_status_spec(status@) {
            Some(s) => Ok::<EscrowStatus, EscrowError>(s),
            None => Err(EscrowError::InvalidEscrowStatus),
        },
{
    if text_eq(status, "Active") {
        Ok(EscrowStatus::Active)
    } else if text_eq(status, "Completed") {
        Ok(EscrowStatus::Completed)
    } else if text_eq(status, "Disputed") {
        Ok(EscrowStatus::Disputed)
    } else if text_eq(status, "Cancelled") {
        Ok(EscrowStatus::Cancelled)
    } else if text_eq(status, "Inactive") {
        Ok(EscrowStatus::Inactive)
    } else if text_eq(status, "Pending") {
        Ok(EscrowStatus::Pending)
    } else if text_eq(status, "Rejected") {
        Ok(EscrowStatus::Rejected)
    } else {
        Err(EscrowError::InvalidEscrowStatus)
    }
}

/// Reads a milestone state from its name. Any other text is refused with
/// `InvalidStatus`.
pub fn parse_milestone_status(status: &str) -> (r: Result<MilestoneStatus, EscrowError>)
    ensures
        r == match milestone_status_spec(status@) {
            Some(s) => Ok::<MilestoneStatus, EscrowError>(s),
            None => Err(EscrowError::InvalidStatus),
        },
{
    if text_eq(status, "Pending") {
        Ok(MilestoneStatus::Pending)
    } else if text_eq(status, "InProgress") {
        Ok(MilestoneStatus::InProgress)
    } else if text_eq(status, "Done") {
        Ok(MilestoneStatus::Done)
    } else if text_eq(status, "Funded") {
        Ok(MilestoneStatus::Funded)
    } else if text_eq(status, "Completed") {
        Ok(MilestoneStatus::Completed)
    } else if text_eq(status, "Disputed") {
        Ok(MilestoneStatus::Disputed)
    } else if text_eq(status, "Overdue") {
        Ok(MilestoneStatus::Overdue)
    } else {
        Err(EscrowError::InvalidStatus)
    }
}

} // verus!
