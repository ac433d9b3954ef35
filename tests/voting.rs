use voting_ledger::ledger::{DataKey, ProposalBook, VoteRecord, VotingContract};
use voting_ledger::proposal::{Error, Identity, Proposal};

fn who(key: u64) -> Identity {
    Identity { key }
}

fn text(s: &str) -> String {
    s.to_string()
}

fn gated_with_admin(admin: Identity) -> VotingContract {
    let mut c = VotingContract::new(true);
    assert_eq!(c.initialize(admin), Ok(()));
    c
}

#[test]
fn test_initialize_and_create_proposal() {
    let admin = who(7);
    let mut c = VotingContract::new(true);
    assert_eq!(c.initialize(admin), Ok(()));
    assert_eq!(c.get_admin(), Some(admin));

    let proposal_id = c.create_proposal(admin, String::new(), String::new());
    assert_eq!(proposal_id, Ok(1));

    let proposal = c.view_proposal(1);
    assert_eq!(proposal.id, 1);
}

#[test]
fn full_voting_scenario() {
    let admin = who(1);
    let v1 = who(10);
    let v2 = who(20);
    let mut c = gated_with_admin(admin);
    assert_eq!(c.create_proposal(admin, String::new(), String::new()), Ok(1));
    assert_eq!(c.get_proposal_count(), 1);
    assert_eq!(c.cast_vote(v1, 1, true, v1), Ok(()));
    assert_eq!(c.view_proposal(1).yes_votes, 1);
    assert_eq!(c.view_proposal(1).no_votes, 0);
    assert_eq!(c.cast_vote(v1, 1, true, v1), Err(Error::AlreadyVoted));
    assert_eq!(c.view_proposal(1).yes_votes, 1);
    assert_eq!(c.close_proposal(admin, 1), Ok(()));
    assert_eq!(c.cast_vote(v2, 1, false, v2), Err(Error::ProposalClosed));
    let p = c.view_proposal(1);
    assert_eq!((p.yes_votes, p.no_votes, p.is_active), (1, 0, false));
}

#[test]
fn initialize_twice_is_refused_and_changes_nothing() {
    let a = who(1);
    let b = who(2);
    let mut c = gated_with_admin(a);
    assert_eq!(c.initialize(b), Err(Error::AlreadyInitialized));
    assert_eq!(c.get_admin(), Some(a));
    assert_eq!(c.get_proposal_count(), 0);
    assert!(c.has(&DataKey::Admin));
    assert!(c.has(&DataKey::ProposalCount));
}

#[test]
fn create_by_non_admin_is_unauthorized() {
    let admin = who(1);
    let other = who(2);
    let mut c = gated_with_admin(admin);
    assert_eq!(c.create_proposal(admin, String::new(), String::new()), Ok(1));
    assert_eq!(c.create_proposal(other, String::new(), String::new()), Err(Error::Unauthorized));
    assert_eq!(c.get_proposal_count(), 1);
    assert!(!c.has(&DataKey::Proposal(2)));
}

#[test]
fn gated_store_refuses_creation_before_initialize() {
    let mut c = VotingContract::new(true);
    assert_eq!(c.get_admin(), None);
    assert_eq!(c.create_proposal(who(1), String::new(), String::new()), Err(Error::Unauthorized));
    assert_eq!(c.get_proposal_count(), 0);
    assert!(!c.has(&DataKey::Admin));
    assert!(!c.has(&DataKey::ProposalCount));
}

#[test]
fn count_follows_successful_creations() {
    let admin = who(1);
    let mut c = gated_with_admin(admin);
    let mut expected: u64 = 0;
    for round in 0..6u64 {
        let caller = if round % 2 == 0 { admin } else { who(99) };
        let before = c.get_proposal_count();
        let r = c.create_proposal(caller, String::new(), String::new());
        if round % 2 == 0 {
            expected += 1;
            assert_eq!(r, Ok(expected));
        } else {
            assert_eq!(r, Err(Error::Unauthorized));
        }
        assert!(c.get_proposal_count() >= before);
        assert_eq!(c.get_proposal_count(), expected);
        let _ = c.close_proposal(admin, 1);
        let _ = c.cast_vote(who(5), 2, true, who(5));
        assert_eq!(c.get_proposal_count(), expected);
    }
}

#[test]
fn unissued_ids_give_the_sentinel() {
    let mut c = VotingContract::new(false);
    assert_eq!(c.create_proposal(who(3), text("a"), text("b")), Ok(1));
    for id in [0u64, 2, 3, u64::MAX] {
        let p = c.view_proposal(id);
        assert_eq!(p.id, 0);
        assert!(!p.is_active);
        assert_eq!((p.yes_votes, p.no_votes), (0, 0));
        assert_eq!(p.title, "");
        assert_eq!(p.description, "");
    }
    assert_eq!(c.view_proposal(1).id, 1);
}

#[test]
fn a_voter_votes_once_per_proposal() {
    let mut c = VotingContract::new(false);
    let v = who(4);
    assert_eq!(c.create_proposal(v, String::new(), String::new()), Ok(1));
    assert_eq!(c.create_proposal(v, String::new(), String::new()), Ok(2));
    assert_eq!(c.cast_vote(v, 1, false, v), Ok(()));
    assert_eq!(c.cast_vote(v, 1, true, v), Err(Error::AlreadyVoted));
    assert_eq!(c.cast_vote(v, 1, false, v), Err(Error::AlreadyVoted));
    assert_eq!(c.cast_vote(v, 2, true, v), Ok(()));
    assert_eq!(c.view_proposal(1).no_votes, 1);
    assert_eq!(c.view_proposal(1).yes_votes, 0);
    assert_eq!(c.view_proposal(2).yes_votes, 1);
    assert!(c.has(&DataKey::HasVoted(1, v)));
    assert!(!c.has(&DataKey::HasVoted(1, who(5))));
}

#[test]
fn replay_is_checked_before_closing() {
    let mut c = VotingContract::new(false);
    let v = who(4);
    assert_eq!(c.create_proposal(v, String::new(), String::new()), Ok(1));
    assert_eq!(c.cast_vote(v, 1, true, v), Ok(()));
    assert_eq!(c.close_proposal(v, 1), Ok(()));
    assert_eq!(c.cast_vote(v, 1, true, v), Err(Error::AlreadyVoted));
}

#[test]
fn closed_proposal_refuses_every_vote() {
    let mut c = VotingContract::new(false);
    assert_eq!(c.create_proposal(who(1), String::new(), String::new()), Ok(1));
    assert_eq!(c.close_proposal(who(1), 1), Ok(()));
    assert_eq!(c.cast_vote(who(2), 1, true, who(2)), Err(Error::ProposalClosed));
    assert_eq!(c.cast_vote(who(3), 1, false, who(3)), Err(Error::ProposalClosed));
    let p = c.view_proposal(1);
    assert_eq!((p.yes_votes, p.no_votes), (0, 0));
}

#[test]
fn closing_cannot_be_undone() {
    let admin = who(1);
    let mut c = gated_with_admin(admin);
    assert_eq!(c.create_proposal(admin, String::new(), String::new()), Ok(1));
    assert_eq!(c.close_proposal(admin, 1), Ok(()));
    assert_eq!(c.close_proposal(admin, 1), Err(Error::ProposalClosed));
    assert_eq!(c.create_proposal(admin, String::new(), String::new()), Ok(2));
    let _ = c.cast_vote(who(2), 1, true, who(2));
    let _ = c.initialize(who(3));
    assert!(!c.view_proposal(1).is_active);
    assert!(c.view_proposal(2).is_active);
}

#[test]
fn missing_proposals_are_invalid() {
    let admin = who(1);
    let mut c = gated_with_admin(admin);
    assert_eq!(c.close_proposal(admin, 1), Err(Error::InvalidProposal));
    assert_eq!(c.close_proposal(admin, 0), Err(Error::InvalidProposal));
    assert_eq!(c.cast_vote(who(2), 0, true, who(2)), Err(Error::InvalidProposal));
    assert_eq!(c.cast_vote(who(2), 5, false, who(2)), Err(Error::InvalidProposal));
    assert!(!c.has(&DataKey::HasVoted(5, who(2))));
}

#[test]
fn only_the_voter_may_vote_and_only_the_admin_may_close() {
    let admin = who(1);
    let mut c = gated_with_admin(admin);
    assert_eq!(c.create_proposal(admin, String::new(), String::new()), Ok(1));
    assert_eq!(c.cast_vote(who(2), 1, true, who(3)), Err(Error::Unauthorized));
    assert_eq!(c.view_proposal(1).yes_votes, 0);
    assert_eq!(c.close_proposal(who(2), 1), Err(Error::Unauthorized));
    assert!(c.view_proposal(1).is_active);
    assert_eq!(c.cast_vote(who(3), 1, true, who(3)), Ok(()));
}

#[test]
fn ungated_store_keeps_text_verbatim() {
    let mut c = VotingContract::new(false);
    assert_eq!(c.create_proposal(who(8), text("Budget"), text("Fund the park")), Ok(1));
    let p = c.view_proposal(1);
    assert_eq!(p.title, "Budget");
    assert_eq!(p.description, "Fund the park");
    assert!(p.is_active);
    assert_eq!(c.get_admin(), None);
    assert!(c.has(&DataKey::ProposalCount));
    assert!(c.has(&DataKey::Proposal(1)));
}

#[test]
fn proposal_rules_in_isolation() {
    let fresh = Proposal::open(4, text("t"), text("d"));
    assert_eq!((fresh.id, fresh.yes_votes, fresh.no_votes, fresh.is_active), (5, 0, 0, true));
    assert_eq!(fresh.title, "t");

    let voted = fresh.duplicate().record_vote(false, false).unwrap();
    assert_eq!((voted.yes_votes, voted.no_votes), (0, 1));
    assert_eq!(voted.id, 5);
    assert_eq!(fresh.duplicate().record_vote(true, true).unwrap_err(), Error::AlreadyVoted);
    assert_eq!(Proposal::not_found().record_vote(false, true).unwrap_err(), Error::InvalidProposal);

    let closed = voted.close().unwrap();
    assert!(!closed.is_active);
    assert_eq!(closed.no_votes, 1);
    assert_eq!(closed.duplicate().record_vote(false, true).unwrap_err(), Error::ProposalClosed);
    assert_eq!(closed.close().unwrap_err(), Error::ProposalClosed);
    assert_eq!(Proposal::not_found().close().unwrap_err(), Error::InvalidProposal);
}

#[test]
fn keys_map_into_the_store_key_space() {
    assert_eq!(ProposalBook::Proposal(3).key(), DataKey::Proposal(3));
    assert_eq!(VoteRecord::HasVoted(3, who(9)).key(), DataKey::HasVoted(3, who(9)));
    assert_ne!(VoteRecord::HasVoted(3, who(9)).key(), DataKey::HasVoted(3, who(8)));
}
