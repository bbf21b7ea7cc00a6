use bridge_core::error::RoundLoaderError;
use bridge_core::round::{RelayRound, RelaySet, MAX_RELAYS};
use bridge_core::types::{Pubkey, Vote};
use bridge_core::voting::{required_votes, Ballot};

fn key(n: u8) -> Pubkey {
    Pubkey::new_from_array([n; 32])
}

fn round_of(count: u8, round_number: u32, round_end: u32) -> RelayRound {
    let keys: Vec<Pubkey> = (1..=count).map(key).collect();
    RelayRound { round_number, round_end, relays: RelaySet::new(keys).unwrap() }
}

#[test]
fn quorum_of_small_relay_sets() {
    assert_eq!(required_votes(1), 1);
    assert_eq!(required_votes(2), 2);
    assert_eq!(required_votes(3), 3);
    assert_eq!(required_votes(4), 3);
    assert_eq!(required_votes(5), 4);
    assert_eq!(required_votes(6), 5);
    assert_eq!(required_votes(7), 5);
}

#[test]
fn quorum_is_two_thirds_plus_one_for_every_small_count() {
    let mut n: u32 = 0;
    while n <= 1000 {
        assert_eq!(required_votes(n), 2 * n / 3 + 1);
        n += 1;
    }
}

#[test]
fn quorum_of_extreme_counts() {
    assert_eq!(required_votes(0), 1);
    assert_eq!(required_votes(u32::MAX), 2_863_311_531);
}

#[test]
fn relay_set_refuses_a_repeated_identity() {
    assert!(RelaySet::new(vec![key(1), key(2), key(1)]).is_none());
    assert!(RelaySet::new(vec![key(1), key(1)]).is_none());
}

#[test]
fn relay_set_keeps_order_and_finds_slots() {
    let set = RelaySet::new(vec![key(9), key(4), key(7)]).unwrap();
    assert_eq!(set.len(), 3);
    assert_eq!(set.position(&key(9)), Some(0));
    assert_eq!(set.position(&key(4)), Some(1));
    assert_eq!(set.position(&key(7)), Some(2));
    assert_eq!(set.position(&key(5)), None);
    assert_eq!(set.get(1), Some(key(4)));
    assert_eq!(set.get(3), None);
    assert_eq!(set.to_vec(), vec![key(9), key(4), key(7)]);
    assert_eq!(set.duplicate().to_vec(), vec![key(9), key(4), key(7)]);
}

#[test]
fn relay_set_may_be_empty() {
    let set = RelaySet::new(Vec::new()).unwrap();
    assert_eq!(set.len(), 0);
    assert_eq!(set.position(&key(1)), None);
    assert!(MAX_RELAYS > 0);
}

#[test]
fn new_ballot_has_one_empty_slot_per_relay() {
    let round = round_of(5, 7, 1000);
    let ballot = Ballot::new(&round);
    assert_eq!(ballot.round_number(), 7);
    assert_eq!(ballot.required_votes(), 4);
    assert_eq!(ballot.signers(), &vec![Vote::NotVoted; 5]);
    assert!(!ballot.is_executed());
    assert_eq!(ballot.confirmations(), 0);
}

#[test]
fn third_confirmation_of_three_makes_executable() {
    let round = round_of(3, 0, 1000);
    let mut ballot = Ballot::new(&round);
    assert_eq!(ballot.vote(&round, &key(1), Vote::Confirm, 10), Ok(()));
    assert_eq!(ballot.vote(&round, &key(2), Vote::Confirm, 11), Ok(()));
    assert_eq!(ballot.confirmations(), 2);
    assert!(!ballot.is_executed());
    assert_eq!(ballot.vote(&round, &key(3), Vote::Confirm, 12), Ok(()));
    assert_eq!(ballot.confirmations(), 3);
    assert!(ballot.is_executed());
    assert_eq!(ballot.signers(), &vec![Vote::Confirm; 3]);
}

#[test]
fn rejections_do_not_count_and_do_not_veto() {
    let round = round_of(4, 0, 1000);
    let mut ballot = Ballot::new(&round);
    assert_eq!(ballot.vote(&round, &key(1), Vote::Reject, 1), Ok(()));
    assert_eq!(ballot.vote(&round, &key(2), Vote::Confirm, 1), Ok(()));
    assert_eq!(ballot.vote(&round, &key(3), Vote::Confirm, 1), Ok(()));
    assert!(!ballot.is_executed());
    assert_eq!(ballot.vote(&round, &key(4), Vote::Confirm, 1), Ok(()));
    assert!(ballot.is_executed());
    assert_eq!(
        ballot.signers(),
        &vec![Vote::Reject, Vote::Confirm, Vote::Confirm, Vote::Confirm]
    );
    assert_eq!(ballot.confirmations(), 3);
}

#[test]
fn second_vote_of_a_relay_is_refused_and_first_vote_stays() {
    let round = round_of(3, 0, 1000);
    let mut ballot = Ballot::new(&round);
    assert_eq!(ballot.vote(&round, &key(2), Vote::Reject, 5), Ok(()));
    assert_eq!(
        ballot.vote(&round, &key(2), Vote::Confirm, 6),
        Err(RoundLoaderError::RelayAlreadyVoted)
    );
    assert_eq!(
        ballot.vote(&round, &key(2), Vote::Reject, 6),
        Err(RoundLoaderError::RelayAlreadyVoted)
    );
    assert_eq!(
        ballot.signers(),
        &vec![Vote::NotVoted, Vote::Reject, Vote::NotVoted]
    );
    assert_eq!(ballot.confirmations(), 0);
}

#[test]
fn vote_after_round_end_is_refused() {
    let round = round_of(3, 0, 1000);
    let mut ballot = Ballot::new(&round);
    assert_eq!(ballot.vote(&round, &key(1), Vote::Confirm, 1000), Ok(()));
    assert_eq!(
        ballot.vote(&round, &key(2), Vote::Confirm, 1001),
        Err(RoundLoaderError::RelayRoundExpired)
    );
    assert_eq!(
        ballot.signers(),
        &vec![Vote::Confirm, Vote::NotVoted, Vote::NotVoted]
    );
}

#[test]
fn late_vote_is_taken_once_the_quorum_is_reached() {
    let round = round_of(4, 0, 1000);
    let mut ballot = Ballot::new(&round);
    assert_eq!(ballot.vote(&round, &key(1), Vote::Confirm, 1), Ok(()));
    assert_eq!(ballot.vote(&round, &key(2), Vote::Confirm, 1), Ok(()));
    assert_eq!(ballot.vote(&round, &key(3), Vote::Confirm, 1), Ok(()));
    assert!(ballot.is_executed());
    assert_eq!(ballot.vote(&round, &key(4), Vote::Reject, 5000), Ok(()));
    assert!(ballot.is_executed());
}

#[test]
fn stranger_cannot_vote() {
    let round = round_of(3, 0, 1000);
    let mut ballot = Ballot::new(&round);
    assert_eq!(
        ballot.vote(&round, &key(9), Vote::Confirm, 1),
        Err(RoundLoaderError::InvalidRelay)
    );
    assert_eq!(ballot.signers(), &vec![Vote::NotVoted; 3]);
}

#[test]
fn stranger_is_told_so_even_after_round_end() {
    let round = round_of(3, 0, 1000);
    let mut ballot = Ballot::new(&round);
    assert_eq!(
        ballot.vote(&round, &key(9), Vote::Confirm, 2000),
        Err(RoundLoaderError::InvalidRelay)
    );
}

#[test]
fn vote_against_another_round_is_refused() {
    let round = round_of(3, 0, 1000);
    let other_number = round_of(3, 1, 1000);
    let other_size = round_of(4, 0, 1000);
    let mut ballot = Ballot::new(&round);
    assert_eq!(
        ballot.vote(&other_number, &key(1), Vote::Confirm, 1),
        Err(RoundLoaderError::InvalidRelayRound)
    );
    assert_eq!(
        ballot.vote(&other_size, &key(1), Vote::Confirm, 1),
        Err(RoundLoaderError::InvalidRelayRound)
    );
}

#[test]
fn empty_vote_leaves_the_slot_open() {
    let round = round_of(3, 0, 1000);
    let mut ballot = Ballot::new(&round);
    assert_eq!(ballot.vote(&round, &key(1), Vote::NotVoted, 1), Ok(()));
    assert_eq!(ballot.vote(&round, &key(1), Vote::Confirm, 2), Ok(()));
    assert_eq!(
        ballot.signers(),
        &vec![Vote::Confirm, Vote::NotVoted, Vote::NotVoted]
    );
}

#[test]
fn votes_of_different_relays_commute() {
    let round = round_of(3, 0, 1000);
    let mut one = Ballot::new(&round);
    let mut other = Ballot::new(&round);
    assert_eq!(one.vote(&round, &key(1), Vote::Confirm, 1), Ok(()));
    assert_eq!(one.vote(&round, &key(3), Vote::Reject, 2), Ok(()));
    assert_eq!(other.vote(&round, &key(3), Vote::Reject, 1), Ok(()));
    assert_eq!(other.vote(&round, &key(1), Vote::Confirm, 2), Ok(()));
    assert_eq!(one.signers(), other.signers());
    assert_eq!(one.is_executed(), other.is_executed());
}

#[test]
fn single_relay_round_needs_its_one_vote() {
    let round = round_of(1, 0, 1000);
    let mut ballot = Ballot::new(&round);
    assert_eq!(ballot.required_votes(), 1);
    assert!(!ballot.is_executed());
    assert_eq!(ballot.vote(&round, &key(1), Vote::Confirm, 1), Ok(()));
    assert!(ballot.is_executed());
}

#[test]
fn round_is_over_only_after_its_end() {
    let round = round_of(3, 0, 1000);
    assert!(!round.expired(999));
    assert!(!round.expired(1000));
    assert!(round.expired(1001));
    assert!(!round.expired(-5));
}

#[test]
fn stored_ballot_is_taken_only_when_consistent() {
    let slots = vec![Vote::Confirm, Vote::Confirm, Vote::Reject, Vote::NotVoted];
    let ballot = Ballot::restore(3, 3, slots.clone(), false).unwrap();
    assert_eq!(ballot.round_number(), 3);
    assert_eq!(ballot.required_votes(), 3);
    assert_eq!(ballot.signers(), &slots);
    assert!(!ballot.is_executed());
    assert!(Ballot::restore(3, 2, slots.clone(), false).is_none());
    assert!(Ballot::restore(3, 4, slots.clone(), false).is_none());
    assert!(Ballot::restore(3, 3, slots.clone(), true).is_none());
    let full = vec![Vote::Confirm, Vote::Confirm, Vote::Confirm, Vote::NotVoted];
    assert!(Ballot::restore(3, 3, full.clone(), true).unwrap().is_executed());
    assert!(!Ballot::restore(3, 3, full, false).unwrap().is_executed());
    assert!(Ballot::restore(0, 1, Vec::new(), false).is_some());
    assert!(Ballot::restore(0, 1, Vec::new(), true).is_none());
}

#[test]
fn ballot_of_stored_slots_is_marked_by_its_confirmations() {
    let two = vec![Vote::Confirm, Vote::Confirm, Vote::NotVoted];
    let three = vec![Vote::Confirm, Vote::Confirm, Vote::Confirm];
    assert!(!Ballot::from_votes(5, 3, two.clone()).unwrap().is_executed());
    let done = Ballot::from_votes(5, 3, three.clone()).unwrap();
    assert!(done.is_executed());
    assert_eq!(done.round_number(), 5);
    assert_eq!(done.signers(), &three);
    assert_eq!(done.confirmations(), 3);
    assert!(Ballot::from_votes(5, 2, two).is_none());
    assert!(Ballot::from_votes(5, 1, Vec::new()).is_some());
    assert!(Ballot::from_votes(5, 0, Vec::new()).is_none());
}

#[test]
fn restored_ballot_votes_like_any_other() {
    let round = round_of(3, 2, 1000);
    let slots = vec![Vote::Confirm, Vote::NotVoted, Vote::Confirm];
    let mut ballot = Ballot::from_votes(2, 3, slots).unwrap();
    assert_eq!(
        ballot.vote(&round, &key(1), Vote::Confirm, 1),
        Err(RoundLoaderError::RelayAlreadyVoted)
    );
    assert_eq!(ballot.vote(&round, &key(2), Vote::Confirm, 1), Ok(()));
    assert!(ballot.is_executed());
}
