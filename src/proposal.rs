use vstd::prelude::*;

verus! {

/// The ways an invocation can be refused. A refused invocation leaves the
/// ledger exactly as it found it.
#[derive(Clone, Copy, Debug, PartialEq, Eq, Structural)]
pub enum Error {
    AlreadyInitialized,
    InvalidProposal,
    AlreadyVoted,
    ProposalClosed,
    Unauthorized,
}

/// An identity as the identity gate reports it once it has authenticated a caller.
#[derive(Clone, Copy, Debug, PartialEq, Eq, Hash, Structural)]
pub struct Identity {
    pub key: u64,
}

/// A votable record. Id 0 is reserved for the "not found" sentinel.
#[derive(Clone, Debug)]
pub struct Proposal {
    pub id: u64,
    pub title: String,
    pub description: String,
    pub yes_votes: u64,
    pub no_votes: u64,
    pub is_active: bool,
}

/// The mathematical value of a proposal.
pub struct ProposalView {
    pub id: nat,
    pub title: Seq<char>,
    pub description: Seq<char>,
    pub yes_votes: nat,
    pub no_votes: nat,
    pub is_active: bool,
}

impl View for Proposal {
    type V = ProposalView;

    open spec fn view(&self) -> ProposalView {
        ProposalView {
            id: self.id as nat,
            title: self.title@,
            description: self.description@,
            yes_votes: self.yes_votes as nat,
            no_votes: self.no_votes as nat,
            is_active: self.is_active,
        }
    }
}

impl ProposalView {
    /// What a lookup of an absent id yields.
    pub open spec fn sentinel() -> ProposalView {
        ProposalView {
            id: 0,
            title: Seq::empty(),
            description: Seq::empty(),
            yes_votes: 0,
            no_votes: 0,
            is_active: false,
        }
    }

    /// A freshly created proposal: no votes yet, open for voting.
    pub open spec fn fresh(id: nat, title: Seq<char>, description: Seq<char>) -> ProposalView {
        ProposalView { id, title, description, yes_votes: 0, no_votes: 0, is_active: true }
    }

    /// The record after one more vote, yes when `vote` holds.
    pub open spec fn with_vote(self, vote: bool) -> ProposalView {
        if vote {
            ProposalView { yes_votes: self.yes_votes + 1, ..self }
        } else {
            ProposalView { no_votes: self.no_votes + 1, ..self }
        }
    }

    /// The record with voting stopped.
    pub open spec fn with_closed(self) -> ProposalView {
        ProposalView { is_active: false, ..self }
    }

    /// Whether the tally that `vote` would raise can still grow in a `u64`.
    pub open spec fn has_room_for(self, vote: bool) -> bool {
        if vote {
            self.yes_votes < u64::MAX
        } else {
            self.no_votes < u64::MAX
        }
    }

    /// Outcome of a vote on this record (as looked up, sentinel if absent),
    /// given whether the voter already voted on it. The checks come in this
    /// order: replay, existence, activity.
    pub open spec fn vote_outcome(self, already_voted: bool, vote: bool) -> Result<ProposalView, Error> {
        if already_voted {
            Err(Error::AlreadyVoted)
        } else if self.id == 0 {
            Err(Error::InvalidProposal)
        } else if !self.is_active {
            Err(Error::ProposalClosed)
        } else {
            Ok(self.with_vote(vote))
        }
    }

    /// Outcome of closing this record (as looked up, sentinel if absent).
    /// Closing a proposal that is already closed is refused.
    pub open spec fn close_outcome(self) -> Result<ProposalView, Error> {
        if self.id == 0 {
            Err(Error::InvalidProposal)
        } else if !self.is_active {
            Err(Error::ProposalClosed)
        } else {
            Ok(self.with_closed())
        }
    }
}

impl Proposal {
    /// The sentinel returned for an id that names no proposal.
    pub fn not_found() -> (r: Proposal)
        ensures
            r@ == ProposalView::sentinel(),
    {
        Proposal {
            id: 0,
            title: String::new(),
            description: String::new(),
            yes_votes: 0,
            no_votes: 0,
            is_active: false,
        }
    }

    /// The proposal created when the counter stood at `count`: its id is
    /// `count + 1`, its text kept verbatim.
    pub fn open(count: u64, title: String, description: String) -> (r: Proposal)
        requires
            count < u64::MAX,
        ensures
            r@ == ProposalView::fresh((count + 1) as nat, title@, description@),
    {
        Proposal { id: count + 1, title, description, yes_votes: 0, no_votes: 0, is_active: true }
    }

    /// A copy that keeps every field.
    pub fn duplicate(&self) -> (r: Proposal)
        ensures
            r@ == self@,
    {
        Proposal {
            id: self.id,
            title: self.title.clone(),
            description: self.description.clone(),
            yes_votes: self.yes_votes,
            no_votes: self.no_votes,
            is_active: self.is_active,
        }
    }

    /// Applies a vote to this record, as looked up for the proposal voted on,
    /// or says why the vote is refused.
    pub fn record_vote(self, already_voted: bool, vote: bool) -> (r: Result<Proposal, Error>)
        requires
            self@.has_room_for(vote),
        ensures
            r matches Ok(p) ==> self@.vote_outcome(already_voted, vote) == Ok::<ProposalView, Error>(p@),
            r matches Err(e) ==> self@.vote_outcome(already_voted, vote) == Err::<ProposalView, Error>(e),
    {
        if already_voted {
            return Err(Error::AlreadyVoted);
        }
        if self.id == 0 {
            return Err(Error::InvalidProposal);
        }
        if !self.is_active {
            return Err(Error::ProposalClosed);
        }
        let mut p = self;
        if vote {
            p.yes_votes = p.yes_votes + 1;
        } else {
            p.no_votes = p.no_votes + 1;
        }
        Ok(p)
    }

    /// Stops voting on this record, as looked up for the proposal closed, or
    /// says why it cannot be closed.
    pub fn close(self) -> (r: Result<Proposal, Error>)
        ensures
            r matches Ok(p) ==> self@.close_outcome() == Ok::<ProposalView, Error>(p@),
            r matches Err(e) ==> self@.close_outcome() == Err::<ProposalView, Error>(e),
    {
        if self.id == 0 {
            return Err(Error::InvalidProposal);
        }
        if !self.is_active {
            return Err(Error::ProposalClosed);
        }
        let mut p = self;
        p.is_active = false;
        Ok(p)
    }
}

} // verus!
