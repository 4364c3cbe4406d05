//! Plain data of the escrow ledger: identities, statuses, records and errors,
//! each with the mathematical model that the contracts speak of.

use vstd::prelude::*;
use vstd::std_specs::cmp::PartialEqSpecImpl;
use vstd::std_specs::convert::FromSpecImpl;

verus! {

/// Token amounts in base units.
pub type Balance = u128;

/// A 20-byte account identity.
#[derive(Clone, Copy, Debug, Eq, Hash)]
pub struct Address(pub [u8; 20]);

impl Address {
    /// Whether all 20 bytes are zero.
    pub open spec fn is_zero(&self) -> bool {
        forall|i: int| 0 <= i < 20 ==> self.0@[i] == 0
    }
}

impl PartialEq for Address {
    fn eq(&self, other: &Address) -> (r: bool) {
        let mut i: usize = 0;
        while i < 20
            invariant
                i <= 20,
                forall|j: int| 0 <= j < i ==> self.0[j] == other.0[j],
            decreases 20 - i,
        {
            if self.0[i] != other.0[i] {
                return false;
            }
            i = i + 1;
        }
        proof {
            assert(self.0@ =~= other.0@);
            assert(self.0 == other.0);
        }
        true
    }
}

impl PartialEqSpecImpl for Address {
    open spec fn obeys_eq_spec() -> bool {
        true
    }

    open spec fn eq_spec(&self, other: &Address) -> bool {
        *self == *other
    }
}

impl From<[u8; 20]> for Address {
    fn from(bytes: [u8; 20]) -> (r: Address) {
        Address(bytes)
    }
}

impl FromSpecImpl<[u8; 20]> for Address {
    open spec fn obeys_from_spec() -> bool {
        true
    }

    open spec fn from_spec(bytes: [u8; 20]) -> Address {
        Address(bytes)
    }
}

impl View for Address {
    type V = Address;

    open spec fn view(&self) -> Address {
        *self
    }
}

impl DeepView for Address {
    type V = Address;

    open spec fn deep_view(&self) -> Address {
        *self
    }
}

/// What the token ledger answers when a transfer is refused.
#[derive(Debug, PartialEq, Eq)]
pub enum PSP22Error {
    InsufficientBalance,
    InsufficientAllowance,
    Custom(String),
}

/// The flat, closed set of failures of the escrow ledger.
#[derive(Clone, Copy, Debug, PartialEq, Eq, Structural)]
pub enum EscrowError {
    Unauthorized,
    EscrowNotFound,
    MilestoneNotFound,
    InvalidStatus,
    InvalidEscrowStatus,
    ContractPaused,
    InsufficientBalance,
    TokenTransferFailed,
    DeadlineExceeded,
    AlreadyCompleted,
    InvalidAmount,
    DuplicateId,
    FeeTooHigh,
    TokenNotConfigured,
    ArithmeticOverflow,
    StorageLimitExceeded,
}

impl From<PSP22Error> for EscrowError {
    fn from(err: PSP22Error) -> (r: EscrowError) {
        match err {
            PSP22Error::InsufficientBalance => EscrowError::InsufficientBalance,
            PSP22Error::InsufficientAllowance => EscrowError::TokenTransferFailed,
            PSP22Error::Custom(_) => EscrowError::TokenTransferFailed,
        }
    }
}

impl FromSpecImpl<PSP22Error> for EscrowError {
    open spec fn obeys_from_spec() -> bool {
        true
    }

    open spec fn from_spec(err: PSP22Error) -> EscrowError {
        if err is InsufficientBalance {
            EscrowError::InsufficientBalance
        } else {
            EscrowError::TokenTransferFailed
        }
    }
}

/// Lifecycle state of an escrow.
#[derive(Clone, Copy, Debug, PartialEq, Eq, Structural)]
pub enum EscrowStatus {
    Active,
    Completed,
    Disputed,
    Cancelled,
    Inactive,
    Pending,
    Rejected,
}

/// Lifecycle state of a milestone.
#[derive(Clone, Copy, Debug, PartialEq, Eq, Structural)]
pub enum MilestoneStatus {
    Pending,
    InProgress,
    Completed,
    Done,
    Funded,
    Disputed,
    Overdue,
}

/// Largest fee, in basis points: the whole amount.
pub const MAX_FEE_BPS: u16 = 10_000;

/// Most approvals one proposal can hold: what the count of approvals in a
/// recorded approval can say.
pub const MAX_APPROVALS: usize = 255;

/// Most milestones one escrow may be created with.
pub const MAX_MILESTONES: usize = 50;

/// Longest title or description, in bytes, an escrow may be created with.
pub const MAX_STRING_LENGTH: usize = 1000;

/// Most evidence files one milestone may be created with.
pub const MAX_EVIDENCE_FILES: usize = 10;

/// A named link to a piece of evidence.
#[derive(Debug, PartialEq, Eq)]
pub struct Evidence {
    pub name: String,
    pub url: String,
}

/// Model of an [`Evidence`].
pub ghost struct EvidenceView {
    pub name: Seq<char>,
    pub url: Seq<char>,
}

impl View for Evidence {
    type V = EvidenceView;

    open spec fn view(&self) -> EvidenceView {
        EvidenceView { name: self.name@, url: self.url@ }
    }
}

impl DeepView for Evidence {
    type V = EvidenceView;

    open spec fn deep_view(&self) -> EvidenceView {
        self@
    }
}

impl Clone for Evidence {
    fn clone(&self) -> (r: Evidence)
        ensures
            r@ == self@,
    {
        Evidence { name: self.name.clone(), url: self.url.clone() }
    }
}

/// A milestone as handed to `create_escrow`: its status is still text and its
/// evidence a list of URLs.
#[derive(Debug, PartialEq, Eq)]
pub struct MilestoneInput {
    pub id: String,
    pub description: String,
    pub amount: String,
    pub status: String,
    pub deadline: u64,
    pub completed_at: Option<u64>,
    pub dispute_reason: Option<String>,
    pub dispute_filed_by: Option<Address>,
    pub completion_note: Option<String>,
    pub evidence_file: Option<Vec<String>>,
}

/// Model of a [`MilestoneInput`].
pub ghost struct MilestoneInputView {
    pub id: Seq<char>,
    pub description: Seq<char>,
    pub amount: Seq<char>,
    pub status: Seq<char>,
    pub deadline: u64,
    pub completed_at: Option<u64>,
    pub dispute_reason: Option<Seq<char>>,
    pub dispute_filed_by: Option<Address>,
    pub completion_note: Option<Seq<char>>,
    pub evidence_file: Option<Seq<Seq<char>>>,
}

impl View for MilestoneInput {
    type V = MilestoneInputView;

    open spec fn view(&self) -> MilestoneInputView {
        MilestoneInputView {
            id: self.id@,
            description: self.description@,
            amount: self.amount@,
            status: self.status@,
            deadline: self.deadline,
            completed_at: self.completed_at,
            dispute_reason: self.dispute_reason.deep_view(),
            dispute_filed_by: self.dispute_filed_by,
            completion_note: self.completion_note.deep_view(),
            evidence_file: self.evidence_file.deep_view(),
        }
    }
}

impl DeepView for MilestoneInput {
    type V = MilestoneInputView;

    open spec fn deep_view(&self) -> MilestoneInputView {
        self@
    }
}

impl Clone for MilestoneInput {
    fn clone(&self) -> (r: MilestoneInput)
        ensures
            r@ == self@,
    {
        let evidence_file = self.evidence_file.clone();
        proof {
            if self.evidence_file is Some {
                assert(evidence_file->0.deep_view() =~= self.evidence_file->0.deep_view());
            }
        }
        MilestoneInput {
            id: self.id.clone(),
            description: self.description.clone(),
            amount: self.amount.clone(),
            status: self.status.clone(),
            deadline: self.deadline,
            completed_at: self.completed_at,
            dispute_reason: self.dispute_reason.clone(),
            dispute_filed_by: self.dispute_filed_by,
            completion_note: self.completion_note.clone(),
            evidence_file,
        }
    }
}

/// A sub-payment of an escrow, with its own lifecycle and amount.
#[derive(Debug, PartialEq, Eq)]
pub struct Milestone {
    pub id: String,
    pub description: String,
    pub amount: String,
    pub status: MilestoneStatus,
    pub deadline: u64,
    pub completed_at: Option<u64>,
    pub dispute_reason: Option<String>,
    pub dispute_filed_by: Option<Address>,
    pub completion_note: Option<String>,
    pub evidence_file: Option<Vec<Evidence>>,
}

/// Model of a [`Milestone`].
pub ghost struct MilestoneView {
    pub id: Seq<char>,
    pub description: Seq<char>,
    pub amount: Seq<char>,
    pub status: MilestoneStatus,
    pub deadline: u64,
    pub completed_at: Option<u64>,
    pub dispute_reason: Option<Seq<char>>,
    pub dispute_filed_by: Option<Address>,
    pub completion_note: Option<Seq<char>>,
    pub evidence_file: Option<Seq<EvidenceView>>,
}

impl View for Milestone {
    type V = MilestoneView;

    open spec fn view(&self) -> MilestoneView {
        MilestoneView {
            id: self.id@,
            description: self.description@,
            amount: self.amount@,
            status: self.status,
            deadline: self.deadline,
            completed_at: self.completed_at,
            dispute_reason: self.dispute_reason.deep_view(),
            dispute_filed_by: self.dispute_filed_by,
            completion_note: self.completion_note.deep_view(),
            evidence_file: self.evidence_file.deep_view(),
        }
    }
}

impl DeepView for Milestone {
    type V = MilestoneView;

    open spec fn deep_view(&self) -> MilestoneView {
        self@
    }
}

impl Clone for Milestone {
    fn clone(&self) -> (r: Milestone)
        ensures
            r@ == self@,
    {
        let evidence_file = self.evidence_file.clone();
        proof {
            if self.evidence_file is Some {
                assert(evidence_file->0.deep_view() =~= self.evidence_file->0.deep_view());
            }
        }
        Milestone {
            id: self.id.clone(),
            description: self.description.clone(),
            amount: self.amount.clone(),
            status: self.status,
            deadline: self.deadline,
            completed_at: self.completed_at,
            dispute_reason: self.dispute_reason.clone(),
            dispute_filed_by: self.dispute_filed_by,
            completion_note: self.completion_note.clone(),
            evidence_file,
        }
    }
}

/// A custody agreement between a creator and a counterparty.
#[derive(Debug, PartialEq, Eq)]
pub struct EscrowData {
    pub id: String,
    pub creator_address: Address,
    pub counterparty_address: Address,
    pub counterparty_type: String,
    pub title: String,
    pub description: String,
    pub total_amount: String,
    pub status: EscrowStatus,
    pub created_at: u64,
    pub milestones: Vec<Milestone>,
    pub transaction_hash: Option<String>,
}

/// Model of an [`EscrowData`].
pub ghost struct EscrowView {
    pub id: Seq<char>,
    pub creator_address: Address,
    pub counterparty_address: Address,
    pub counterparty_type: Seq<char>,
    pub title: Seq<char>,
    pub description: Seq<char>,
    pub total_amount: Seq<char>,
    pub status: EscrowStatus,
    pub created_at: u64,
    pub milestones: Seq<MilestoneView>,
    pub transaction_hash: Option<Seq<char>>,
}

impl View for EscrowData {
    type V = EscrowView;

    open spec fn view(&self) -> EscrowView {
        EscrowView {
            id: self.id@,
            creator_address: self.creator_address,
            counterparty_address: self.counterparty_address,
            counterparty_type: self.counterparty_type@,
            title: self.title@,
            description: self.description@,
            total_amount: self.total_amount@,
            status: self.status,
            created_at: self.created_at,
            milestones: self.milestones.deep_view(),
            transaction_hash: self.transaction_hash.deep_view(),
        }
    }
}

impl DeepView for EscrowData {
    type V = EscrowView;

    open spec fn deep_view(&self) -> EscrowView {
        self@
    }
}

impl Clone for EscrowData {
    fn clone(&self) -> (r: EscrowData)
        ensures
            r@ == self@,
    {
        let milestones = self.milestones.clone();
        proof {
            assert(milestones.deep_view() =~= self.milestones.deep_view());
        }
        EscrowData {
            id: self.id.clone(),
            creator_address: self.creator_address,
            counterparty_address: self.counterparty_address,
            counterparty_type: self.counterparty_type.clone(),
            title: self.title.clone(),
            description: self.description.clone(),
            total_amount: self.total_amount.clone(),
            status: self.status,
            created_at: self.created_at,
            milestones,
            transaction_hash: self.transaction_hash.clone(),
        }
    }
}

/// What the host hands to every call: who calls, and when.
#[derive(Clone, Copy, Debug, PartialEq, Eq)]
pub struct Env {
    pub caller: Address,
    pub block_timestamp: u64,
    pub block_number: u32,
}

/// A transfer of tokens out of custody, for the caller to carry out.
#[derive(Clone, Copy, Debug, PartialEq, Eq)]
pub struct TokenTransfer {
    pub token: Address,
    pub to: Address,
    pub value: Balance,
}

/// Receipt of a released milestone.
#[derive(Debug, PartialEq, Eq)]
pub struct ReleaseResponse {
    pub transaction_hash: String,
    pub status: String,
    pub message: String,
    pub receiver_account_id: Address,
    pub payer_account_id: Address,
}

/// A committed release: its receipt, and the transfers that are now owed, the
/// payout first and then the fee, if there is one.
#[derive(Debug, PartialEq, Eq)]
pub struct Release {
    pub response: ReleaseResponse,
    pub payout: TokenTransfer,
    pub fee: Option<TokenTransfer>,
}

/// Receipt of a filed dispute.
#[derive(Debug, PartialEq, Eq)]
pub struct DisputeResponse {
    pub dispute_id: String,
    pub status: String,
    pub message: String,
}

/// Receipt of a recorded notification.
#[derive(Debug, PartialEq, Eq)]
pub struct NotificationResponse {
    pub notification_id: String,
    pub status: String,
    pub message: String,
}

/// What is reported of a transaction.
#[derive(Debug, PartialEq, Eq)]
pub struct TransactionStatus {
    pub transaction_hash: String,
    pub status: String,
    pub confirmations: u64,
    pub block_number: u64,
}

/// An administrative change that the signers can decide on.
#[derive(Clone, Copy, Debug, PartialEq, Eq)]
pub enum ProposalAction {
    SetFee(u16),
    SetUsdtToken(Address),
    SetTokenDecimals(u8),
    AddSigner(Address),
    RemoveSigner(Address),
    SetThreshold(u8),
    PauseContract,
    UnpauseContract,
    EmergencyWithdraw(Address, Balance),
}

/// A proposal with the approvals it has gathered.
#[derive(Debug, PartialEq, Eq)]
pub struct AdminProposal {
    pub id: u64,
    pub action: ProposalAction,
    pub created_by: Address,
    pub created_at: u64,
    pub approvals: Vec<Address>,
    pub executed: bool,
    pub executed_at: Option<u64>,
}

/// Model of an [`AdminProposal`].
pub ghost struct ProposalView {
    pub id: u64,
    pub action: ProposalAction,
    pub created_by: Address,
    pub created_at: u64,
    pub approvals: Seq<Address>,
    pub executed: bool,
    pub executed_at: Option<u64>,
}

impl View for AdminProposal {
    type V = ProposalView;

    open spec fn view(&self) -> ProposalView {
        ProposalView {
            id: self.id,
            action: self.action,
            created_by: self.created_by,
            created_at: self.created_at,
            approvals: self.approvals@,
            executed: self.executed,
            executed_at: self.executed_at,
        }
    }
}

impl DeepView for AdminProposal {
    type V = ProposalView;

    open spec fn deep_view(&self) -> ProposalView {
        self@
    }
}

impl Clone for AdminProposal {
    fn clone(&self) -> (r: AdminProposal)
        ensures
            r@ == self@,
    {
        let approvals = self.approvals.clone();
        proof {
            assert(approvals@ =~= self.approvals@);
        }
        AdminProposal {
            id: self.id,
            action: self.action,
            created_by: self.created_by,
            created_at: self.created_at,
            approvals,
            executed: self.executed,
            executed_at: self.executed_at,
        }
    }
}

} // verus!
