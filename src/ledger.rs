use vstd::prelude::*;
use crate::proposal::{Error, Identity, Proposal, ProposalView};

verus! {

/// The store's key space: four families, told apart by their tag.
#[derive(Clone, Copy, Debug, PartialEq, Eq, Structural)]
pub enum DataKey {
    Admin,
    ProposalCount,
    Proposal(u64),
    HasVoted(u64, Identity),
}

/// The key under which a proposal record is kept.
#[derive(Clone, Copy, Debug, PartialEq, Eq, Structural)]
pub enum ProposalBook {
    Proposal(u64),
}

/// The replay guard: its presence says that a voter has voted on a proposal.
#[derive(Clone, Copy, Debug, PartialEq, Eq, Structural)]
pub enum VoteRecord {
    HasVoted(u64, Identity),
}

impl ProposalBook {
    pub open spec fn spec_key(self) -> DataKey {
        match self {
            ProposalBook::Proposal(id) => DataKey::Proposal(id),
        }
    }

    /// The store key that this key stands for.
    pub fn key(&self) -> (r: DataKey)
        ensures
            r == self.spec_key(),
    {
        match self {
            ProposalBook::Proposal(id) => DataKey::Proposal(*id),
        }
    }
}

impl VoteRecord {
    pub open spec fn pair(self) -> (u64, Identity) {
        match self {
            VoteRecord::HasVoted(id, voter) => (id, voter),
        }
    }

    pub open spec fn spec_key(self) -> DataKey {
        DataKey::HasVoted(self.pair().0, self.pair().1)
    }

    /// The store key that this record stands for.
    pub fn key(&self) -> (r: DataKey)
        ensures
            r == self.spec_key(),
    {
        match self {
            VoteRecord::HasVoted(id, voter) => DataKey::HasVoted(*id, *voter),
        }
    }
}

/// The mathematical value of the whole store.
pub struct LedgerState {
    /// Whether creating and closing proposals needs the administrator.
    pub gated: bool,
    pub admin: Option<Identity>,
    /// The proposal with id `k` stands at index `k - 1`.
    pub proposals: Seq<ProposalView>,
    /// The (proposal id, voter) pairs that have voted.
    pub votes: Set<(u64, Identity)>,
}

impl LedgerState {
    /// The store before any invocation.
    pub open spec fn empty(gated: bool) -> LedgerState {
        LedgerState { gated, admin: None, proposals: Seq::empty(), votes: Set::empty() }
    }

    /// The proposal counter.
    pub open spec fn count(self) -> nat {
        self.proposals.len()
    }

    pub open spec fn exists_id(self, id: u64) -> bool {
        1 <= id <= self.count()
    }

    /// What a lookup of `id` yields: the record, or the sentinel.
    pub open spec fn lookup(self, id: u64) -> ProposalView {
        if self.exists_id(id) {
            self.proposals[id - 1]
        } else {
            ProposalView::sentinel()
        }
    }

    /// Whether `caller` may create and close proposals.
    pub open spec fn authorized(self, caller: Identity) -> bool {
        !self.gated || self.admin == Some(caller)
    }

    /// Whether the store holds a value under `key`.
    pub open spec fn has(self, key: DataKey) -> bool {
        match key {
            DataKey::Admin => self.admin is Some,
            DataKey::ProposalCount => self.admin is Some || self.count() > 0,
            DataKey::Proposal(id) => self.exists_id(id),
            DataKey::HasVoted(id, voter) => self.votes.contains((id, voter)),
        }
    }

    pub open spec fn initialize(self, admin: Identity) -> (LedgerState, Result<(), Error>) {
        if self.admin is Some {
            (self, Err(Error::AlreadyInitialized))
        } else {
            (LedgerState { admin: Some(admin), ..self }, Ok(()))
        }
    }

    pub open spec fn create(self, caller: Identity, title: Seq<char>, description: Seq<char>) -> (
        LedgerState,
        Result<nat, Error>,
    ) {
        if !self.authorized(caller) {
            (self, Err(Error::Unauthorized))
        } else {
            let id = self.count() + 1;
            (
                LedgerState {
                    proposals: self.proposals.push(ProposalView::fresh(id, title, description)),
                    ..self
                },
                Ok(id),
            )
        }
    }

    pub open spec fn close(self, caller: Identity, id: u64) -> (LedgerState, Result<(), Error>) {
        if !self.authorized(caller) {
            (self, Err(Error::Unauthorized))
        } else {
            match self.lookup(id).close_outcome() {
                Err(e) => (self, Err(e)),
                Ok(p) => (LedgerState { proposals: self.proposals.update(id - 1, p), ..self }, Ok(())),
            }
        }
    }

    pub open spec fn vote(self, caller: Identity, id: u64, vote: bool, voter: Identity) -> (
        LedgerState,
        Result<(), Error>,
    ) {
        if caller != voter {
            (self, Err(Error::Unauthorized))
        } else {
            match self.lookup(id).vote_outcome(self.votes.contains((id, voter)), vote) {
                Err(e) => (self, Err(e)),
                Ok(p) => (
                    LedgerState {
                        proposals: self.proposals.update(id - 1, p),
                        votes: self.votes.insert((id, voter)),
                        ..self
                    },
                    Ok(()),
                ),
            }
        }
    }
}

/// The voting ledger: the store of proposals, vote records and administrator.
pub struct VotingContract {
    gated: bool,
    admin: Option<Identity>,
    proposals: Vec<Proposal>,
    votes: Vec<VoteRecord>,
}

impl View for VotingContract {
    type V = LedgerState;

    closed spec fn view(&self) -> LedgerState {
        LedgerState {
            gated: self.gated,
            admin: self.admin,
            proposals: self.proposals@.map_values(|p: Proposal| p@),
            votes: self.votes@.map_values(|r: VoteRecord| r.pair()).to_set(),
        }
    }
}

impl VotingContract {
    /// Well-formed: a gated store holds no proposal before it has an
    /// administrator, and the counter fits a `u64`.
    pub closed spec fn wf(&self) -> bool {
        &&& (self.gated && self.admin is None ==> self.proposals@.len() == 0)
        &&& self.proposals@.len() <= u64::MAX
    }

    /// An empty store. With `gated`, creating and closing proposals needs
    /// the administrator that `initialize` sets.
    pub fn new(gated: bool) -> (r: VotingContract)
        ensures
            r.wf(),
            r@ == LedgerState::empty(gated),
    {
        let r = VotingContract { gated, admin: None, proposals: Vec::new(), votes: Vec::new() };
        proof {
            assert(r@.proposals =~= Seq::<ProposalView>::empty());
            assert(r@.votes =~= Set::<(u64, Identity)>::empty());
        }
        r
    }

    /// Whether the store holds a value under `key`.
    pub fn has(&self, key: &DataKey) -> (r: bool)
        requires
            self.wf(),
        ensures
            r == self@.has(*key),
    {
        match key {
            DataKey::Admin => self.admin.is_some(),
            DataKey::ProposalCount => self.admin.is_some() || self.proposals.len() > 0,
            DataKey::Proposal(id) => 1 <= *id && *id <= self.proposals.len() as u64,
            DataKey::HasVoted(id, voter) => self.has_voted(*id, *voter),
        }
    }

    fn has_voted(&self, id: u64, voter: Identity) -> (r: bool)
        ensures
            r == self@.votes.contains((id, voter)),
    {
        let ghost pairs = self.votes@.map_values(|r: VoteRecord| r.pair());
        let mut i: usize = 0;
        while i < self.votes.len()
            invariant
                i <= self.votes.len(),
                pairs == self.votes@.map_values(|r: VoteRecord| r.pair()),
                forall|j: int| 0 <= j < i ==> pairs[j] != (id, voter),
            decreases self.votes.len() - i,
        {
            let VoteRecord::HasVoted(pid, who) = self.votes[i];
            if pid == id && who == voter {
                assert(pairs[i as int] == (id, voter));
                return true;
            }
            i = i + 1;
        }
        proof {
            assert(!pairs.contains((id, voter)));
        }
        false
    }

    /// The admin gate: whether `caller` may create and close proposals.
    fn authorizes(&self, caller: Identity) -> (r: bool)
        ensures
            r == self@.authorized(caller),
    {
        if !self.gated {
            return true;
        }
        match self.admin {
            Some(a) => a == caller,
            None => false,
        }
    }

    /// The record kept under `proposal_id`, or the sentinel (id 0, closed,
    /// no votes, empty text) when there is none. Never fails.
    pub fn view_proposal(&self, proposal_id: u64) -> (r: Proposal)
        requires
            self.wf(),
        ensures
            r@ == self@.lookup(proposal_id),
    {
        if 1 <= proposal_id && proposal_id <= self.proposals.len() as u64 {
            self.proposals[(proposal_id - 1) as usize].duplicate()
        } else {
            Proposal::not_found()
        }
    }

    /// The proposal counter: how many proposals were created.
    pub fn get_proposal_count(&self) -> (r: u64)
        requires
            self.wf(),
        ensures
            r == self@.count(),
    {
        self.proposals.len() as u64
    }

    /// The administrator, once one is set.
    pub fn get_admin(&self) -> (r: Option<Identity>)
        ensures
            r == self@.admin,
    {
        self.admin
    }

    /// Sets the administrator, once for the store's lifetime. In a gated
    /// store no proposal exists before this, so the counter stands at zero.
    pub fn initialize(&mut self, admin: Identity) -> (r: Result<(), Error>)
        requires
            old(self).wf(),
        ensures
            final(self).wf(),
            (final(self)@, r) == old(self)@.initialize(admin),
            r is Ok && old(self)@.gated ==> final(self)@.count() == 0,
    {
        if self.admin.is_some() {
            return Err(Error::AlreadyInitialized);
        }
        self.admin = Some(admin);
        Ok(())
    }

    /// Creates a proposal with the given text and returns its id, one more
    /// than the counter before. In a gated store only the administrator may.
    pub fn create_proposal(&mut self, caller: Identity, title: String, description: String) -> (r:
        Result<u64, Error>)
        requires
            old(self).wf(),
            old(self)@.count() < u64::MAX,
        ensures
            final(self).wf(),
            final(self)@ == old(self)@.create(caller, title@, description@).0,
            r matches Ok(id) ==> old(self)@.create(caller, title@, description@).1 == Ok::<nat, Error>(id as nat),
            r matches Err(e) ==> old(self)@.create(caller, title@, description@).1 == Err::<nat, Error>(e),
    {
        if !self.authorizes(caller) {
            return Err(Error::Unauthorized);
        }
        let count = self.proposals.len() as u64;
        let p = Proposal::open(count, title, description);
        self.proposals.push(p);
        proof {
            assert(self@.proposals =~= old(self)@.proposals.push(p@));
        }
        Ok(count + 1)
    }

    /// Closes a proposal for good. Refused when `proposal_id` names no
    /// proposal or the proposal is already closed; in a gated store only the
    /// administrator may close.
    pub fn close_proposal(&mut self, caller: Identity, proposal_id: u64) -> (r: Result<(), Error>)
        requires
            old(self).wf(),
        ensures
            final(self).wf(),
            (final(self)@, r) == old(self)@.close(caller, proposal_id),
    {
        if !self.authorizes(caller) {
            return Err(Error::Unauthorized);
        }
        let current = self.view_proposal(proposal_id);
        match current.close() {
            Err(e) => Err(e),
            Ok(p) => {
                assert(old(self)@.exists_id(proposal_id));
                assert(old(self)@.count() == self.proposals@.len());
                assert(proposal_id - 1 < self.proposals.len());
                let i = (proposal_id - 1) as usize;
                self.proposals.set(i, p);
                proof {
                    assert(self@.proposals =~= old(self)@.proposals.update(i as int, p@));
                }
                Ok(())
            },
        }
    }

    /// Records `voter`'s vote on a proposal, yes when `vote` holds. Refused,
    /// in this order, when the caller is not `voter`, when `voter` already
    /// voted on it, when it does not exist and when it is closed.
    pub fn cast_vote(&mut self, caller: Identity, proposal_id: u64, vote: bool, voter: Identity) -> (r:
        Result<(), Error>)
        requires
            old(self).wf(),
            old(self)@.lookup(proposal_id).has_room_for(vote),
        ensures
            final(self).wf(),
            (final(self)@, r) == old(self)@.vote(caller, proposal_id, vote, voter),
    {
        if caller != voter {
            return Err(Error::Unauthorized);
        }
        let already = self.has_voted(proposal_id, voter);
        let current = self.view_proposal(proposal_id);
        match current.record_vote(already, vote) {
            Err(e) => Err(e),
            Ok(p) => {
                assert(old(self)@.exists_id(proposal_id));
                assert(old(self)@.count() == self.proposals@.len());
                assert(proposal_id - 1 < self.proposals.len());
                let i = (proposal_id - 1) as usize;
                self.proposals.set(i, p);
                self.votes.push(VoteRecord::HasVoted(proposal_id, voter));
                proof {
                    assert(self@.proposals =~= old(self)@.proposals.update(i as int, p@));
                    let olds = old(self).votes@.map_values(|r: VoteRecord| r.pair());
                    assert(self.votes@.map_values(|r: VoteRecord| r.pair()) =~= olds.push(
                        (proposal_id, voter),
                    ));
                    olds.lemma_push_to_set_commute((proposal_id, voter));
                }
                Ok(())
            },
        }
    }
}

} // verus!
