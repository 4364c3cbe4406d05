//! The escrow ledger proper: creating escrows, reading them back, and the
//! status changes that a party to an escrow may make.

use vstd::prelude::*;
use crate::contract::EscrowContract;
use crate::events::{record, EscrowCreated, EscrowStatusChanged, Event, MilestoneStatusChanged};
use crate::invariants::{
    consistent, extends, law_create_escrow_keeps, law_update_escrow_milestone_status_keeps,
    law_update_escrow_status_keeps,
};
use crate::model::{
    create_escrow_spec, escrow_id_spec, evidence_of_urls, first_input_error, first_match, ids_of,
    index_add, input_error, listed, milestone_of_input, milestone_position,
    milestones_of_inputs, party_error, store_escrow, update_escrow_milestone_status_spec,
    update_escrow_status_spec,
};
use crate::status::{parse_escrow_status, parse_milestone_status};
use crate::storage::{lemma_deep_insert, Mapping};
use crate::text::{numbered, text_eq};
use crate::types::{
    Address, Env, EscrowData, EscrowError, Evidence, Milestone, MilestoneInput,
    MilestoneStatus, MAX_EVIDENCE_FILES, MAX_MILESTONES, MAX_STRING_LENGTH,
};

verus! {

/// Appends `id` to the ids that the reverse index holds for `who`.
fn index_push(index: &mut Mapping<Address, Vec<String>>, who: Address, id: String)
    ensures
        final(index).deep_view() == index_add(old(index).deep_view(), who, id@),
{
    let mut list: Vec<String> = match index.get(&who) {
        Some(l) => l.clone(),
        None => Vec::new(),
    };
    let ghost before = list.deep_view();
    proof {
        if old(index)@.contains_key(who) {
            assert(before =~= old(index)@[who].deep_view());
        } else {
            assert(before =~= Seq::empty());
        }
        assert(before == ids_of(old(index).deep_view(), who));
    }
    list.push(id);
    proof {
        assert(list.deep_view() =~= before.push(id@));
        lemma_deep_insert(index@, who, list);
    }
    index.insert(who, list);
}

/// Where the first milestone with the id `id` stands.
pub(crate) fn find_milestone(ms: &Vec<Milestone>, id: &str) -> (r: Option<usize>)
    ensures
        match r {
            Some(i) => milestone_position(ms.deep_view(), id@) == Some(i as int) && i < ms.len(),
            None => milestone_position(ms.deep_view(), id@) is None,
        },
{
    let mut i: usize = 0;
    while i < ms.len()
        invariant
            i <= ms@.len(),
            forall|j: int| 0 <= j < i ==> (#[trigger] ms.deep_view()[j]).id != id@,
        decreases ms@.len() - i,
    {
        if text_eq(ms[i].id.as_str(), id) {
            proof {
                assert(first_match(ms.deep_view(), id@, i as int));
                let c = choose|c: int| first_match(ms.deep_view(), id@, c);
                assert(c == i) by {
                    if c < i {
                        assert(ms.deep_view()[c].id != id@);
                    } else if c > i {
                        assert(ms.deep_view()[i as int].id != id@);
                    }
                }
            }
            return Some(i);
        }
        i = i + 1;
    }
    proof {
        assert forall|c: int| !first_match(ms.deep_view(), id@, c) by {
            if 0 <= c < ms.deep_view().len() {
                assert(ms.deep_view()[c].id != id@);
            }
        }
    }
    None
}

/// Turns the URLs of a milestone input into evidence without names.
fn evidence_from_urls(urls: &Vec<String>) -> (r: Vec<Evidence>)
    ensures
        r.deep_view() == evidence_of_urls(urls.deep_view()),
{
    let mut out: Vec<Evidence> = Vec::new();
    let mut i: usize = 0;
    while i < urls.len()
        invariant
            i <= urls@.len(),
            out@.len() == i,
            forall|j: int|
                0 <= j < i ==> (#[trigger] out@[j])@ == evidence_of_urls(urls.deep_view())[j],
        decreases urls@.len() - i,
    {
        out.push(Evidence { name: String::new(), url: urls[i].clone() });
        i = i + 1;
    }
    proof {
        assert(out.deep_view() =~= evidence_of_urls(urls.deep_view()));
    }
    out
}

/// Reads one milestone input: its status by name, its evidence from URLs.
fn milestone_from_input(m: &MilestoneInput) -> (r: Result<Milestone, EscrowError>)
    ensures
        match input_error(m@) {
            Some(e) => r == Err::<Milestone, EscrowError>(e),
            None => r is Ok && r->Ok_0@ == milestone_of_input(m@),
        },
{
    let status = match parse_milestone_status(m.status.as_str()) {
        Ok(s) => s,
        Err(e) => {
            return Err(e);
        },
    };
    let evidence_file = match &m.evidence_file {
        Some(urls) => {
            if urls.len() > MAX_EVIDENCE_FILES {
                return Err(EscrowError::StorageLimitExceeded);
            }
            Some(evidence_from_urls(urls))
        },
        None => None,
    };
    Ok(
        Milestone {
            id: m.id.clone(),
            description: m.description.clone(),
            amount: m.amount.clone(),
            status,
            deadline: m.deadline,
            completed_at: m.completed_at,
            dispute_reason: m.dispute_reason.clone(),
            dispute_filed_by: m.dispute_filed_by,
            completion_note: m.completion_note.clone(),
            evidence_file,
        },
    )
}

proof fn lemma_first_input_error(ms: Seq<crate::types::MilestoneInputView>, i: int)
    requires
        0 <= i <= ms.len(),
        forall|j: int| 0 <= j < i ==> input_error(#[trigger] ms[j]) is None,
    ensures
        i < ms.len() && input_error(ms[i]) is Some ==> first_input_error(ms) == input_error(ms[i]),
        i == ms.len() ==> first_input_error(ms) is None,
    decreases ms.len(),
{
    if ms.len() > 0 && i > 0 {
        assert(input_error(ms[0]) is None);
        assert forall|j: int| 0 <= j < i - 1 implies input_error(
            #[trigger] ms.drop_first()[j],
        ) is None by {
            assert(ms.drop_first()[j] == ms[j + 1]);
        }
        lemma_first_input_error(ms.drop_first(), i - 1);
        if i < ms.len() {
            assert(ms.drop_first()[i - 1] == ms[i]);
        }
    }
}

/// Reads all milestone inputs, in order; the first that is refused decides.
fn milestones_from_inputs(inputs: &Vec<MilestoneInput>) -> (r: Result<Vec<Milestone>, EscrowError>)
    ensures
        match first_input_error(inputs.deep_view()) {
            Some(e) => r == Err::<Vec<Milestone>, EscrowError>(e),
            None => r is Ok && r->Ok_0.deep_view() == milestones_of_inputs(inputs.deep_view()),
        },
{
    let mut out: Vec<Milestone> = Vec::new();
    let mut i: usize = 0;
    while i < inputs.len()
        invariant
            i <= inputs@.len(),
            out@.len() == i,
            forall|j: int| 0 <= j < i ==> input_error(#[trigger] inputs.deep_view()[j]) is None,
            forall|j: int|
                0 <= j < i ==> (#[trigger] out@[j])@ == milestone_of_input(inputs.deep_view()[j]),
        decreases inputs@.len() - i,
    {
        proof {
            lemma_first_input_error(inputs.deep_view(), i as int);
            assert(inputs.deep_view()[i as int] == inputs@[i as int]@);
        }
        match milestone_from_input(&inputs[i]) {
            Ok(m) => {
                out.push(m);
            },
            Err(e) => {
                return Err(e);
            },
        }
        i = i + 1;
    }
    proof {
        lemma_first_input_error(inputs.deep_view(), i as int);
        assert(out.deep_view() =~= milestones_of_inputs(inputs.deep_view()));
    }
    Ok(out)
}

impl EscrowContract {
    /// Creates an escrow between the caller and `counterparty_address`, with
    /// the milestones given, and returns its id, `escrow_` and the number of
    /// the escrow. The id is entered in the reverse index of both parties,
    /// once for each identity, and the creation is recorded.
    ///
    /// Refused, with nothing changed: while the ledger is paused; with more
    /// than 50 milestones, or a title or description of more than 1000
    /// bytes; when the counter is exhausted; with a status that names no
    /// escrow state; with a milestone whose status names no milestone state
    /// or that has more than 10 evidence files.
    pub fn create_escrow(
        &mut self,
        env: Env,
        counterparty_address: Address,
        counterparty_type: String,
        status: String,
        title: String,
        description: String,
        total_amount: String,
        milestones_input: Vec<MilestoneInput>,
        transaction_hash: Option<String>,
    ) -> (r: Result<String, EscrowError>)
        ensures
            match create_escrow_spec(
                old(self)@,
                env,
                counterparty_address,
                counterparty_type@,
                status@,
                title@,
                description@,
                total_amount@,
                milestones_input.deep_view(),
                transaction_hash.deep_view(),
            ) {
                Ok(post) => {
                    &&& r is Ok
                    &&& r->Ok_0@ == escrow_id_spec((old(self)@.escrow_counter + 1) as nat)
                    &&& final(self)@ == post
                },
                Err(e) => r == Err::<String, EscrowError>(e) && *final(self) == *old(self),
            },
            consistent(old(self)@) ==> consistent(final(self)@) && extends(
                old(self)@,
                final(self)@,
            ),
    {
        proof {
            if consistent(old(self)@) && create_escrow_spec(
                old(self)@,
                env,
                counterparty_address,
                counterparty_type@,
                status@,
                title@,
                description@,
                total_amount@,
                milestones_input.deep_view(),
                transaction_hash.deep_view(),
            ) is Ok {
                law_create_escrow_keeps(
                    old(self)@,
                    env,
                    counterparty_address,
                    counterparty_type@,
                    status@,
                    title@,
                    description@,
                    total_amount@,
                    milestones_input.deep_view(),
                    transaction_hash.deep_view(),
                );
            }
        }
        if self.paused {
            return Err(EscrowError::ContractPaused);
        }
        if milestones_input.len() > MAX_MILESTONES {
            return Err(EscrowError::StorageLimitExceeded);
        }
        if title.as_str().as_bytes().len() > MAX_STRING_LENGTH {
            return Err(EscrowError::StorageLimitExceeded);
        }
        if description.as_str().as_bytes().len() > MAX_STRING_LENGTH {
            return Err(EscrowError::StorageLimitExceeded);
        }
        if self.escrow_counter == u64::MAX {
            return Err(EscrowError::ArithmeticOverflow);
        }
        let escrow_status = match parse_escrow_status(status.as_str()) {
            Ok(s) => s,
            Err(e) => {
                return Err(e);
            },
        };
        let milestones = match milestones_from_inputs(&milestones_input) {
            Ok(ms) => ms,
            Err(e) => {
                return Err(e);
            },
        };
        let caller = env.caller;
        let number = self.escrow_counter + 1;
        let escrow_id = numbered("escrow_", number);
        let escrow_data = EscrowData {
            id: escrow_id.clone(),
            creator_address: caller,
            counterparty_address,
            counterparty_type: counterparty_type.clone(),
            title: title.clone(),
            description: description.clone(),
            total_amount: total_amount.clone(),
            status: escrow_status,
            created_at: env.block_timestamp,
            milestones,
            transaction_hash: transaction_hash.clone(),
        };
        proof {
            lemma_deep_insert(self.escrows@, escrow_id@, escrow_data);
        }
        self.escrow_counter = number;
        self.escrows.insert(escrow_id.clone(), escrow_data);
        index_push(&mut self.user_escrows, caller, escrow_id.clone());
        if counterparty_address != caller {
            index_push(&mut self.user_escrows, counterparty_address, escrow_id.clone());
        }
        record(
            &mut self.events,
            Event::EscrowCreated(
                EscrowCreated {
                    escrow_id: escrow_id.clone(),
                    creator: caller,
                    counterparty: counterparty_address,
                    counterparty_type,
                    title,
                    total_amount,
                    transaction_hash,
                },
            ),
        );
        Ok(escrow_id)
    }

    /// The escrow stored under `escrow_id`.
    pub fn get_escrow(&self, escrow_id: String) -> (r: Result<EscrowData, EscrowError>)
        ensures
            match r {
                Ok(e) => self@.escrows.contains_key(escrow_id@) && e@ == self@.escrows[escrow_id@],
                Err(e) => e == EscrowError::EscrowNotFound && !self@.escrows.contains_key(
                    escrow_id@,
                ),
            },
    {
        match self.escrows.get(&escrow_id) {
            Some(e) => Ok(e.clone()),
            None => Err(EscrowError::EscrowNotFound),
        }
    }

    /// The escrow stored under `escrow_id`, for a call that only a party to
    /// the escrow may make while the ledger is not paused.
    pub(crate) fn load_for_party(&self, caller: Address, escrow_id: &String) -> (r: Result<
        EscrowData,
        EscrowError,
    >)
        ensures
            match party_error(self@, caller, escrow_id@) {
                Some(e) => r == Err::<EscrowData, EscrowError>(e),
                None => r is Ok && r->Ok_0@ == self@.escrows[escrow_id@],
            },
    {
        if self.paused {
            return Err(EscrowError::ContractPaused);
        }
        let escrow = match self.escrows.get(escrow_id) {
            Some(e) => e,
            None => {
                return Err(EscrowError::EscrowNotFound);
            },
        };
        if caller != escrow.creator_address && caller != escrow.counterparty_address {
            return Err(EscrowError::Unauthorized);
        }
        Ok(escrow.clone())
    }

    /// Stores `escrow` under `escrow_id` and records `event`.
    pub(crate) fn store(&mut self, escrow_id: String, escrow: EscrowData, event: Event)
        ensures
            final(self)@ == store_escrow(old(self)@, escrow_id@, escrow@, event@),
    {
        proof {
            lemma_deep_insert(self.escrows@, escrow_id@, escrow);
        }
        self.escrows.insert(escrow_id, escrow);
        record(&mut self.events, event);
    }

    /// The milestone `milestone_id` of the escrow `escrow_id`: the first
    /// with that id.
    pub fn get_escrow_milestone(&self, escrow_id: String, milestone_id: String) -> (r: Result<
        Milestone,
        EscrowError,
    >)
        ensures
            match r {
                Ok(m) => {
                    &&& self@.escrows.contains_key(escrow_id@)
                    &&& milestone_position(self@.escrows[escrow_id@].milestones, milestone_id@)
                        is Some
                    &&& m@ == self@.escrows[escrow_id@].milestones[milestone_position(
                        self@.escrows[escrow_id@].milestones,
                        milestone_id@,
                    )->0]
                },
                Err(e) => if self@.escrows.contains_key(escrow_id@) {
                    &&& e == EscrowError::MilestoneNotFound
                    &&& milestone_position(self@.escrows[escrow_id@].milestones, milestone_id@)
                        is None
                } else {
                    e == EscrowError::EscrowNotFound
                },
            },
    {
        let escrow = match self.escrows.get(&escrow_id) {
            Some(e) => e,
            None => {
                return Err(EscrowError::EscrowNotFound);
            },
        };
        match find_milestone(&escrow.milestones, milestone_id.as_str()) {
            Some(i) => Ok(escrow.milestones[i].clone()),
            None => Err(EscrowError::MilestoneNotFound),
        }
    }

    /// Sets the status of an escrow to the state that `new_status` names,
    /// and its external reference to `transaction_hash` where one is given.
    /// Returns the escrow as it is stored afterwards, and records the
    /// change.
    ///
    /// Refused, with nothing changed: while the ledger is paused; for an
    /// unknown escrow; for a caller who is no party to it; for a status that
    /// names no escrow state.
    pub fn update_escrow_status(
        &mut self,
        env: Env,
        escrow_id: String,
        new_status: String,
        transaction_hash: Option<String>,
    ) -> (r: Result<EscrowData, EscrowError>)
        ensures
            match update_escrow_status_spec(
                old(self)@,
                env,
                escrow_id@,
                new_status@,
                transaction_hash.deep_view(),
            ) {
                Ok(post) => {
                    &&& r is Ok
                    &&& final(self)@ == post
                    &&& r->Ok_0@ == post.escrows[escrow_id@]
                },
                Err(e) => r == Err::<EscrowData, EscrowError>(e) && *final(self) == *old(self),
            },
            consistent(old(self)@) ==> consistent(final(self)@) && extends(
                old(self)@,
                final(self)@,
            ),
    {
        proof {
            if consistent(old(self)@) && update_escrow_status_spec(
                old(self)@,
                env,
                escrow_id@,
                new_status@,
                transaction_hash.deep_view(),
            ) is Ok {
                law_update_escrow_status_keeps(
                    old(self)@,
                    env,
                    escrow_id@,
                    new_status@,
                    transaction_hash.deep_view(),
                );
            }
        }
        let mut escrow = match self.load_for_party(env.caller, &escrow_id) {
            Ok(e) => e,
            Err(e) => {
                return Err(e);
            },
        };
        let old_status = escrow.status;
        let new_escrow_status = match parse_escrow_status(new_status.as_str()) {
            Ok(s) => s,
            Err(e) => {
                return Err(e);
            },
        };
        escrow.status = new_escrow_status;
        if transaction_hash.is_some() {
            escrow.transaction_hash = transaction_hash.clone();
        }
        let stored = escrow.clone();
        let event = Event::EscrowStatusChanged(
            EscrowStatusChanged {
                escrow_id: escrow_id.clone(),
                old_status,
                new_status: new_escrow_status,
                transaction_hash,
            },
        );
        self.store(escrow_id, stored, event);
        Ok(escrow)
    }

    /// Sets the status of the milestone that has the id of `milestone` to
    /// the state that `new_status` names; a milestone that becomes
    /// `Completed` is stamped with the time of the call. Returns the escrow
    /// as it is stored afterwards, and records the change.
    ///
    /// Refused, with nothing changed: while the ledger is paused; for an
    /// unknown escrow; for a caller who is no party to it; for an unknown
    /// milestone; for a status that names no milestone state.
    pub fn update_escrow_milestone_status(
        &mut self,
        env: Env,
        escrow_id: String,
        milestone: Milestone,
        new_status: String,
    ) -> (r: Result<EscrowData, EscrowError>)
        ensures
            match update_escrow_milestone_status_spec(
                old(self)@,
                env,
                escrow_id@,
                milestone.id@,
                new_status@,
            ) {
                Ok(post) => {
                    &&& r is Ok
                    &&& final(self)@ == post
                    &&& r->Ok_0@ == post.escrows[escrow_id@]
                },
                Err(e) => r == Err::<EscrowData, EscrowError>(e) && *final(self) == *old(self),
            },
            consistent(old(self)@) ==> consistent(final(self)@) && extends(
                old(self)@,
                final(self)@,
            ),
    {
        proof {
            if consistent(old(self)@) && update_escrow_milestone_status_spec(
                old(self)@,
                env,
                escrow_id@,
                milestone.id@,
                new_status@,
            ) is Ok {
                law_update_escrow_milestone_status_keeps(
                    old(self)@,
                    env,
                    escrow_id@,
                    milestone.id@,
                    new_status@,
                );
            }
        }
        let mut escrow = match self.load_for_party(env.caller, &escrow_id) {
            Ok(e) => e,
            Err(e) => {
                return Err(e);
            },
        };
        let index = match find_milestone(&escrow.milestones, milestone.id.as_str()) {
            Some(i) => i,
            None => {
                return Err(EscrowError::MilestoneNotFound);
            },
        };
        let old_status = escrow.milestones[index].status;
        let new_milestone_status = match parse_milestone_status(new_status.as_str()) {
            Ok(s) => s,
            Err(e) => {
                return Err(e);
            },
        };
        let ghost before = escrow@;
        escrow.milestones[index].status = new_milestone_status;
        if new_milestone_status == MilestoneStatus::Completed {
            escrow.milestones[index].completed_at = Some(env.block_timestamp);
        }
        proof {
            assert(escrow@.milestones =~= before.milestones.update(
                index as int,
                escrow.milestones@[index as int]@,
            ));
        }
        let stored = escrow.clone();
        let event = Event::MilestoneStatusChanged(
            MilestoneStatusChanged {
                escrow_id: escrow_id.clone(),
                milestone_id: milestone.id,
                old_status,
                new_status: new_milestone_status,
            },
        );
        self.store(escrow_id, stored, event);
        Ok(escrow)
    }

    /// The escrows of the caller, as creator or as counterparty, in the
    /// order in which they were entered in the reverse index. Refused while
    /// the ledger is paused.
    pub fn list_escrows(&self, env: Env) -> (r: Result<Vec<EscrowData>, EscrowError>)
        ensures
            match r {
                Ok(v) => !self@.paused && v.deep_view() == listed(
                    ids_of(self@.user_escrows, env.caller),
                    self@.escrows,
                ),
                Err(e) => self@.paused && e == EscrowError::ContractPaused,
            },
    {
        if self.paused {
            return Err(EscrowError::ContractPaused);
        }
        let mut out: Vec<EscrowData> = Vec::new();
        let ids = match self.user_escrows.get(&env.caller) {
            Some(ids) => ids,
            None => {
                proof {
                    assert(out.deep_view() =~= Seq::empty());
                }
                return Ok(out);
            },
        };
        let ghost all = ids.deep_view();
        let mut i: usize = 0;
        proof {
            assert(all.take(0) =~= Seq::empty());
            assert(out.deep_view() =~= Seq::empty());
        }
        while i < ids.len()
            invariant
                i <= ids@.len(),
                all == ids.deep_view(),
                out.deep_view() == listed(all.take(i as int), self@.escrows),
            decreases ids@.len() - i,
        {
            let ghost before = out.deep_view();
            proof {
                assert(all.take(i + 1).drop_last() =~= all.take(i as int));
                assert(all.take(i + 1).last() == ids@[i as int]@);
            }
            match self.escrows.get(&ids[i]) {
                Some(e) => {
                    out.push(e.clone());
                    proof {
                        assert(out.deep_view() =~= before.push(self@.escrows[ids@[i as int]@]));
                    }
                },
                None => {
                    proof {
                        assert(out.deep_view() =~= before);
                    }
                },
            }
            i = i + 1;
        }
        proof {
            assert(all.take(i as int) =~= all);
        }
        Ok(out)
    }
}

} // verus!
