//! The escrow ledger: its state, how it is set up, and what can be read from
//! it.

use vstd::prelude::*;
use crate::amount::{parse_amount, parse_amount_spec};
use crate::events::Event;
use crate::invariants::{consistent, law_initial_state_is_consistent};
use crate::model::{first_signer, initial_state, signer_index, ContractView};
use crate::storage::Mapping;
use crate::types::{Address, AdminProposal, Balance, Env, EscrowData};

verus! {

/// The whole state of the ledger.
pub struct EscrowContract {
    pub owner: Address,
    /// The platform fee, in basis points.
    pub fee_bps: u16,
    /// Who receives the platform fee.
    pub fee_account: Address,
    /// The number of the escrow created last.
    pub escrow_counter: u64,
    /// The escrows, by id.
    pub escrows: Mapping<String, EscrowData>,
    /// The reverse index: for each identity the ids of the escrows that it
    /// created or is the counterparty of.
    pub user_escrows: Mapping<Address, Vec<String>>,
    /// For each escrow id what was confirmed as deposited and not yet
    /// released, in base units.
    pub escrow_deposits: Mapping<String, Balance>,
    pub paused: bool,
    /// The token contract that holds the funds.
    pub usdt_token: Address,
    pub default_duration: u64,
    /// What was released so far, in base units.
    pub total_volume: u128,
    /// The decimal places of the token.
    pub token_decimals: u8,
    pub admin_signers: Vec<Address>,
    /// How many approvals execute a proposal.
    pub signature_threshold: u8,
    /// The number of the proposal submitted last.
    pub proposal_counter: u64,
    /// The proposals, by number.
    pub proposals: Mapping<u64, AdminProposal>,
    /// What has happened and was not yet handed out, oldest first.
    pub events: Vec<Event>,
}

impl View for EscrowContract {
    type V = ContractView;

    open spec fn view(&self) -> ContractView {
        ContractView {
            owner: self.owner,
            fee_bps: self.fee_bps,
            fee_account: self.fee_account,
            escrow_counter: self.escrow_counter,
            escrows: self.escrows.deep_view(),
            user_escrows: self.user_escrows.deep_view(),
            escrow_deposits: self.escrow_deposits@,
            paused: self.paused,
            usdt_token: self.usdt_token,
            default_duration: self.default_duration,
            total_volume: self.total_volume,
            token_decimals: self.token_decimals,
            admin_signers: self.admin_signers@,
            signature_threshold: self.signature_threshold,
            proposal_counter: self.proposal_counter,
            proposals: self.proposals.deep_view(),
            events: self.events.deep_view(),
        }
    }
}

impl EscrowContract {
    /// Sets up a ledger. The caller becomes its owner and its only signer,
    /// with a threshold of 1; the fee is 1%, the token has 6 decimals, and
    /// the default duration is 90 days in milliseconds.
    pub fn new(env: Env, usdt_token: Address, fee_account: Address) -> (r: Self)
        ensures
            r@ == initial_state(env.caller, usdt_token, fee_account),
            consistent(r@),
    {
        proof {
            law_initial_state_is_consistent(env.caller, usdt_token, fee_account);
        }
        let mut admin_signers = Vec::new();
        admin_signers.push(env.caller);
        let r = EscrowContract {
            owner: env.caller,
            fee_bps: 100,
            fee_account,
            escrow_counter: 0,
            escrows: Mapping::new(),
            user_escrows: Mapping::new(),
            escrow_deposits: Mapping::new(),
            paused: false,
            usdt_token,
            default_duration: 7_776_000_000,
            total_volume: 0,
            token_decimals: 6,
            admin_signers,
            signature_threshold: 1,
            proposal_counter: 0,
            proposals: Mapping::new(),
            events: Vec::new(),
        };
        proof {
            assert(r.admin_signers@ =~= seq![env.caller]);
            assert(r.escrows.deep_view() =~= Map::empty());
            assert(r.user_escrows.deep_view() =~= Map::empty());
            assert(r.proposals.deep_view() =~= Map::empty());
            assert(r.events.deep_view() =~= Seq::empty());
        }
        r
    }

    /// The first 20 bytes of a 32-byte account id, as an address.
    pub fn account_id_to_address(account_id: &[u8; 32]) -> (r: Address)
        ensures
            r.0@ == account_id@.subrange(0, 20),
    {
        let mut address_bytes = [0u8; 20];
        let mut i: usize = 0;
        while i < 20
            invariant
                i <= 20,
                forall|j: int| 0 <= j < i ==> address_bytes@[j] == account_id@[j],
            decreases 20 - i,
        {
            address_bytes[i] = account_id[i];
            i = i + 1;
        }
        proof {
            assert(address_bytes@ =~= account_id@.subrange(0, 20));
        }
        Address(address_bytes)
    }

    /// Converts a decimal amount to base units at the token's decimal
    /// places.
    pub fn parse_amount_to_base_units(&self, amount_str: &str) -> (r: Result<Balance, ()>)
        ensures
            r == parse_amount_spec(amount_str@, self@.token_decimals as nat),
    {
        parse_amount(amount_str, self.token_decimals)
    }

    /// Hands out the events recorded since the last call, oldest first.
    pub fn take_events(&mut self) -> (r: Vec<Event>)
        ensures
            r.deep_view() == old(self)@.events,
            final(self)@ == (ContractView { events: Seq::empty(), ..old(self)@ }),
            consistent(old(self)@) ==> consistent(final(self)@),
    {
        let mut taken: Vec<Event> = Vec::new();
        std::mem::swap(&mut self.events, &mut taken);
        proof {
            assert(self.events.deep_view() =~= Seq::empty());
        }
        taken
    }

    /// The token contract.
    pub fn get_usdt_token(&self) -> (r: Address)
        ensures
            r == self@.usdt_token,
    {
        self.usdt_token
    }

    /// The token contract, its decimal places, and the fee in basis points.
    pub fn get_token_config(&self) -> (r: (Address, u8, u16))
        ensures
            r == (self@.usdt_token, self@.token_decimals, self@.fee_bps),
    {
        (self.usdt_token, self.token_decimals, self.fee_bps)
    }

    /// The owner, the fee in basis points, whether the ledger is paused,
    /// and the volume released so far.
    pub fn get_contract_info(&self) -> (r: (Address, u16, bool, u128))
        ensures
            r == (self@.owner, self@.fee_bps, self@.paused, self@.total_volume),
    {
        (self.owner, self.fee_bps, self.paused, self.total_volume)
    }

    /// The signers, in the order in which they were added.
    pub fn get_admin_signers(&self) -> (r: Vec<Address>)
        ensures
            r@ == self@.admin_signers,
    {
        let r = self.admin_signers.clone();
        proof {
            assert(r@ =~= self.admin_signers@);
        }
        r
    }

    /// How many approvals execute a proposal.
    pub fn get_signature_threshold(&self) -> (r: u8)
        ensures
            r == self@.signature_threshold,
    {
        self.signature_threshold
    }

    /// The proposal of the number `proposal_id`, if there is one.
    pub fn get_proposal(&self, proposal_id: u64) -> (r: Option<AdminProposal>)
        ensures
            match r {
                Some(p) => self@.proposals.contains_key(proposal_id) && p@
                    == self@.proposals[proposal_id],
                None => !self@.proposals.contains_key(proposal_id),
            },
    {
        match self.proposals.get(&proposal_id) {
            Some(p) => Some(p.clone()),
            None => None,
        }
    }

    /// The number of the proposal submitted last.
    pub fn get_proposal_counter(&self) -> (r: u64)
        ensures
            r == self@.proposal_counter,
    {
        self.proposal_counter
    }

    /// Whether `account` is a signer.
    pub fn is_admin_signer(&self, account: Address) -> (r: bool)
        ensures
            r == self@.admin_signers.contains(account),
    {
        contains_address(&self.admin_signers, account)
    }
}

impl Default for EscrowContract {
    /// A ledger set up by the all-zero address, with the all-zero address as
    /// token contract and as fee account.
    fn default() -> (r: Self)
        ensures
            r@.owner.is_zero(),
            r@ == initial_state(r@.owner, r@.owner, r@.owner),
            consistent(r@),
    {
        let zero = Address([0u8; 20]);
        EscrowContract::new(Env { caller: zero, block_timestamp: 0, block_number: 0 }, zero, zero)
    }
}

/// Whether `who` is among `list`.
pub fn contains_address(list: &Vec<Address>, who: Address) -> (r: bool)
    ensures
        r == list@.contains(who),
{
    let mut i: usize = 0;
    while i < list.len()
        invariant
            i <= list@.len(),
            forall|j: int| 0 <= j < i ==> list@[j] != who,
        decreases list@.len() - i,
    {
        if list[i] == who {
            return true;
        }
        i = i + 1;
    }
    false
}

/// Where `who` first stands among `list`, if at all.
pub fn find_signer(list: &Vec<Address>, who: Address) -> (r: Option<usize>)
    ensures
        match r {
            Some(i) => list@.contains(who) && i < list@.len() && i == signer_index(list@, who),
            None => !list@.contains(who),
        },
{
    let mut i: usize = 0;
    while i < list.len()
        invariant
            i <= list@.len(),
            forall|j: int| 0 <= j < i ==> list@[j] != who,
        decreases list@.len() - i,
    {
        if list[i] == who {
            proof {
                assert(first_signer(list@, who, i as int));
                let c = signer_index(list@, who);
                assert(first_signer(list@, who, c));
            }
            return Some(i);
        }
        i = i + 1;
    }
    None
}

} // verus!
