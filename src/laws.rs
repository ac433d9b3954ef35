//! Properties of whole sequences of invocations. Each state-changing method
//! of `VotingContract` moves its view by the matching operation of
//! `LedgerState`, so `run` describes the store after any sequence of calls.
use vstd::prelude::*;
use crate::proposal::{Error, Identity, ProposalView};
use crate::ledger::LedgerState;

verus! {

/// One state-changing invocation on the ledger.
pub enum Op {
    Initialize { admin: Identity },
    Create { caller: Identity, title: Seq<char>, description: Seq<char> },
    Close { caller: Identity, id: u64 },
    Vote { caller: Identity, id: u64, vote: bool, voter: Identity },
}

/// The store after `op`, whether it succeeded or was refused.
pub open spec fn step(s: LedgerState, op: Op) -> LedgerState {
    match op {
        Op::Initialize { admin } => s.initialize(admin).0,
        Op::Create { caller, title, description } => s.create(caller, title, description).0,
        Op::Close { caller, id } => s.close(caller, id).0,
        Op::Vote { caller, id, vote, voter } => s.vote(caller, id, vote, voter).0,
    }
}

/// The id that `op` returned, when it is a creation that succeeded.
pub open spec fn created(s: LedgerState, op: Op) -> Option<nat> {
    match op {
        Op::Create { caller, title, description } => match s.create(caller, title, description).1 {
            Ok(id) => Some(id),
            Err(_) => None,
        },
        _ => None,
    }
}

/// The store after the invocations of `ops`, in order.
pub open spec fn run(s: LedgerState, ops: Seq<Op>) -> LedgerState
    decreases ops.len(),
{
    if ops.len() == 0 {
        s
    } else {
        step(run(s, ops.drop_last()), ops.last())
    }
}

/// How many of the invocations of `ops` were successful creations.
pub open spec fn creations(s: LedgerState, ops: Seq<Op>) -> nat
    decreases ops.len(),
{
    if ops.len() == 0 {
        0
    } else {
        creations(s, ops.drop_last()) + if created(run(s, ops.drop_last()), ops.last()) is Some {
            1nat
        } else {
            0nat
        }
    }
}

/// The ids that the creations among `ops` returned.
pub open spec fn issued(s: LedgerState, ops: Seq<Op>) -> Set<nat>
    decreases ops.len(),
{
    if ops.len() == 0 {
        Set::empty()
    } else {
        let prev = issued(s, ops.drop_last());
        match created(run(s, ops.drop_last()), ops.last()) {
            Some(id) => prev.insert(id),
            None => prev,
        }
    }
}

/// One invocation raises the counter by one exactly when it is a successful
/// creation, which returns the raised counter; it keeps every existing
/// proposal existing and every vote record.
pub proof fn lemma_step(s: LedgerState, op: Op)
    ensures
        step(s, op).count() == s.count() + if created(s, op) is Some { 1nat } else { 0nat },
        created(s, op) matches Some(id) ==> id == s.count() + 1,
        s.votes.subset_of(step(s, op).votes),
        forall|id: u64| s.exists_id(id) ==> #[trigger] step(s, op).exists_id(id),
{
}

/// A closed proposal stays closed, under its id, through any one invocation.
pub proof fn lemma_step_keeps_closed(s: LedgerState, op: Op, id: u64)
    requires
        s.exists_id(id),
        !s.lookup(id).is_active,
    ensures
        step(s, op).exists_id(id),
        step(s, op).lookup(id).id == s.lookup(id).id,
        !step(s, op).lookup(id).is_active,
{
    lemma_step(s, op);
}

/// The proposal counter equals the number of successful creations made
/// since the store was empty.
pub proof fn lemma_count_is_creations(gated: bool, ops: Seq<Op>)
    ensures
        run(LedgerState::empty(gated), ops).count() == creations(LedgerState::empty(gated), ops),
{
    lemma_count_from(LedgerState::empty(gated), ops);
}

/// From any store, the counter grows by the number of successful creations.
pub proof fn lemma_count_from(s: LedgerState, ops: Seq<Op>)
    ensures
        run(s, ops).count() == s.count() + creations(s, ops),
    decreases ops.len(),
{
    if ops.len() > 0 {
        lemma_count_from(s, ops.drop_last());
        lemma_step(run(s, ops.drop_last()), ops.last());
    }
}

/// The proposal counter never goes down: after a longer prefix of a
/// sequence of invocations it is at least what it was after a shorter one.
pub proof fn lemma_count_monotone(s: LedgerState, ops: Seq<Op>, i: int, j: int)
    requires
        0 <= i <= j <= ops.len(),
    ensures
        run(s, ops.take(i)).count() <= run(s, ops.take(j)).count(),
    decreases j - i,
{
    if i < j {
        lemma_count_monotone(s, ops, i, j - 1);
        assert(ops.take(j).drop_last() =~= ops.take(j - 1));
        lemma_step(run(s, ops.take(j - 1)), ops.take(j).last());
    }
}

/// The ids that creations return are exactly those above the counter at the
/// start and up to the counter at the end.
pub proof fn lemma_issued_range(s: LedgerState, ops: Seq<Op>)
    ensures
        forall|k: nat| #[trigger]
            issued(s, ops).contains(k) <==> s.count() < k <= run(s, ops).count(),
    decreases ops.len(),
{
    if ops.len() > 0 {
        let prev = ops.drop_last();
        lemma_issued_range(s, prev);
        lemma_step(run(s, prev), ops.last());
        lemma_count_from(s, prev);
        assert forall|k: nat| #[trigger]
            issued(s, ops).contains(k) <==> s.count() < k <= run(s, ops).count() by {
            assert(issued(s, prev).contains(k) <==> s.count() < k <= run(s, prev).count());
        }
    }
}

/// Looking up an id that no creation since the store was empty returned
/// yields the sentinel: id 0, closed.
pub proof fn lemma_unissued_is_sentinel(gated: bool, ops: Seq<Op>, id: u64)
    requires
        !issued(LedgerState::empty(gated), ops).contains(id as nat),
    ensures
        run(LedgerState::empty(gated), ops).lookup(id) == ProposalView::sentinel(),
        run(LedgerState::empty(gated), ops).lookup(id).id == 0,
        !run(LedgerState::empty(gated), ops).lookup(id).is_active,
{
    lemma_issued_range(LedgerState::empty(gated), ops);
}

/// Vote records are never removed.
pub proof fn lemma_votes_kept(s: LedgerState, ops: Seq<Op>)
    ensures
        s.votes.subset_of(run(s, ops).votes),
    decreases ops.len(),
{
    if ops.len() > 0 {
        lemma_votes_kept(s, ops.drop_last());
        lemma_step(run(s, ops.drop_last()), ops.last());
    }
}

/// Once `voter` has voted on a proposal, whatever happens next, another
/// vote by `voter` on it is refused with `AlreadyVoted` and changes nothing.
pub proof fn lemma_single_vote(
    s: LedgerState,
    caller: Identity,
    id: u64,
    first: bool,
    voter: Identity,
    ops: Seq<Op>,
    second: bool,
)
    requires
        s.vote(caller, id, first, voter).1 is Ok,
    ensures
        ({
            let t = run(s.vote(caller, id, first, voter).0, ops);
            t.vote(voter, id, second, voter) == (t, Err::<(), Error>(Error::AlreadyVoted))
        }),
{
    lemma_votes_kept(s.vote(caller, id, first, voter).0, ops);
}

/// A closed proposal stays closed, under its id, whatever happens next.
pub proof fn lemma_closed_stays_closed(s: LedgerState, ops: Seq<Op>, id: u64)
    requires
        s.exists_id(id),
        !s.lookup(id).is_active,
    ensures
        run(s, ops).exists_id(id),
        run(s, ops).lookup(id).id == s.lookup(id).id,
        !run(s, ops).lookup(id).is_active,
    decreases ops.len(),
{
    if ops.len() > 0 {
        lemma_closed_stays_closed(s, ops.drop_last(), id);
        lemma_step_keeps_closed(run(s, ops.drop_last()), ops.last(), id);
    }
}

/// After a proposal is closed, whatever happens next, a vote on it by a
/// voter who had not voted on it is refused with `ProposalClosed`, yes or
/// no alike, and changes nothing.
pub proof fn lemma_closed_refuses_votes(
    s: LedgerState,
    caller: Identity,
    id: u64,
    ops: Seq<Op>,
    vote: bool,
    voter: Identity,
)
    requires
        s.close(caller, id).1 is Ok,
        !run(s.close(caller, id).0, ops).votes.contains((id, voter)),
    ensures
        ({
            let t = run(s.close(caller, id).0, ops);
            t.vote(voter, id, vote, voter) == (t, Err::<(), Error>(Error::ProposalClosed))
        }),
{
    let s1 = s.close(caller, id).0;
    assert(s1.exists_id(id));
    assert(!s1.lookup(id).is_active);
    lemma_closed_stays_closed(s1, ops, id);
}

} // verus!
