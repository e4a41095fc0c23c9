use project_ads::state::State;
use project_ads::{AdError, Identity, ValidationField, VoteDirection};

fn ident(raw: u64) -> Identity {
    Identity::new(raw)
}

fn add_valid_ad(s: &mut State, owner: Identity, now: u64) -> u64 {
    let r = s.add_ad(
        owner,
        now,
        "Valid Title".to_string(),
        "a description of 20c".to_string(),
        "contact".to_string(),
        "tech".to_string(),
        6,
        "https://example.invalid".to_string(),
    );
    assert!(r.success, "ad creation should succeed");
    r.ad_id.unwrap()
}

#[test]
fn register_anonymous_fails() {
    let mut s = State::new();
    let r = s.register_user(Identity::anonymous(), 1);
    assert!(!r.success);
    assert!(!r.is_registered);
    let stats = s.get_stats();
    assert_eq!(stats.1, 0);
}

#[test]
fn register_and_auth_status() {
    let mut s = State::new();
    let a = ident(7);
    let before = s.get_auth_status(a);
    assert!(before.success);
    assert!(!before.is_registered);
    let r = s.register_user(a, 5);
    assert!(r.success);
    assert!(r.is_registered);
    let after = s.get_auth_status(a);
    assert!(after.success);
    assert!(after.is_registered);
    let anon = s.get_auth_status(Identity::anonymous());
    assert!(!anon.success);
    assert!(!anon.is_registered);
}

#[test]
fn reregistration_preserves_record() {
    let mut s = State::new();
    let a = ident(1);
    s.register_user(a, 10);
    let id = add_valid_ad(&mut s, a, 11);
    assert_eq!(id, 1);
    let r = s.register_user(a, 99);
    assert!(r.success);
    assert!(r.is_registered);
    let p = s.get_user_profile(a).unwrap();
    assert_eq!(p.registered_at, 10);
    assert_eq!(p.ads_created, vec![1]);
}

#[test]
fn recast_same_direction_keeps_tallies() {
    let mut s = State::new();
    let a = ident(1);
    let b = ident(2);
    s.register_user(a, 1);
    s.register_user(b, 2);
    let id = add_valid_ad(&mut s, a, 3);
    let r1 = s.vote_ad(b, 4, id, VoteDirection::Up);
    assert!(r1.success);
    assert_eq!((r1.new_votes_up, r1.new_votes_down), (1, 0));
    let r2 = s.vote_ad(b, 5, id, VoteDirection::Up);
    assert!(r2.success);
    assert_eq!((r2.new_votes_up, r2.new_votes_down), (1, 0));
    assert_eq!(s.get_user_vote_on_ad(b, id), Some(VoteDirection::Up));
}

#[test]
fn cast_up_then_down_moves_one_unit() {
    let mut s = State::new();
    let a = ident(1);
    let b = ident(2);
    s.register_user(a, 1);
    s.register_user(b, 2);
    let id = add_valid_ad(&mut s, a, 3);
    let r1 = s.vote_ad(b, 4, id, VoteDirection::Up);
    assert_eq!((r1.new_votes_up, r1.new_votes_down), (1, 0));
    let r2 = s.vote_ad(b, 5, id, VoteDirection::Down);
    assert!(r2.success);
    assert_eq!((r2.new_votes_up, r2.new_votes_down), (0, 1));
}

#[test]
fn retract_returns_to_precast_value() {
    let mut s = State::new();
    let a = ident(1);
    let b = ident(2);
    s.register_user(a, 1);
    s.register_user(b, 2);
    let id = add_valid_ad(&mut s, a, 3);
    s.vote_ad(b, 4, id, VoteDirection::Down);
    let r = s.remove_vote(b, 5, id);
    assert!(r.success);
    assert_eq!((r.new_votes_up, r.new_votes_down), (0, 0));
    let again = s.remove_vote(b, 6, id);
    assert!(!again.success);
    assert_eq!(again.error, Some(AdError::NoPriorVote));
    assert_eq!((again.new_votes_up, again.new_votes_down), (0, 0));
}

#[test]
fn owner_cannot_vote_on_own_ad() {
    let mut s = State::new();
    let a = ident(1);
    let b = ident(2);
    s.register_user(a, 1);
    s.register_user(b, 2);
    let id = add_valid_ad(&mut s, a, 3);
    s.vote_ad(b, 4, id, VoteDirection::Up);
    let r = s.vote_ad(a, 5, id, VoteDirection::Up);
    assert!(!r.success);
    assert_eq!(r.error, Some(AdError::OwnAdVote));
    assert_eq!((r.new_votes_up, r.new_votes_down), (1, 0));
    let ads = s.get_ads();
    assert_eq!(ads[0].ad.votes_up, 1);
    assert_eq!(ads[0].ad.votes_down, 0);
}

#[test]
fn short_title_rejected_and_no_id_allocated() {
    let mut s = State::new();
    let a = ident(1);
    s.register_user(a, 1);
    let r = s.add_ad(
        a,
        2,
        "abc".to_string(),
        "a description of 20c".to_string(),
        "c".to_string(),
        "t".to_string(),
        1,
        "l".to_string(),
    );
    assert!(!r.success);
    assert_eq!(r.error, Some(AdError::ValidationFailed(ValidationField::Title)));
    assert_eq!(r.ad_id, None);
    assert_eq!(s.get_stats().0, 0);
    let id = add_valid_ad(&mut s, a, 3);
    assert_eq!(id, 1, "the failed creation must not have consumed an id");
}

#[test]
fn short_description_rejected() {
    let mut s = State::new();
    let a = ident(1);
    s.register_user(a, 1);
    let r = s.add_ad(
        a,
        2,
        "Valid Title".to_string(),
        "too short".to_string(),
        "c".to_string(),
        "t".to_string(),
        1,
        "l".to_string(),
    );
    assert!(!r.success);
    assert_eq!(r.error, Some(AdError::ValidationFailed(ValidationField::Description)));
    assert_eq!(r.ad_id, None);
}

#[test]
fn full_voting_scenario() {
    let mut s = State::new();
    let a = ident(10);
    let b = ident(20);
    assert!(s.register_user(a, 1).success);
    assert!(s.register_user(b, 2).success);
    let r = s.add_ad(
        a,
        3,
        "Valid Title".to_string(),
        "exactly twenty chars".to_string(),
        "contact".to_string(),
        "tech".to_string(),
        4,
        "link".to_string(),
    );
    assert!(r.success);
    assert_eq!(r.ad_id, Some(1));
    let up = s.vote_ad(b, 4, 1, VoteDirection::Up);
    assert!(up.success);
    assert_eq!((up.new_votes_up, up.new_votes_down), (1, 0));
    let down = s.vote_ad(b, 5, 1, VoteDirection::Down);
    assert!(down.success);
    assert_eq!((down.new_votes_up, down.new_votes_down), (0, 1));
    let out = s.remove_vote(b, 6, 1);
    assert!(out.success);
    assert_eq!((out.new_votes_up, out.new_votes_down), (0, 0));
    let again = s.remove_vote(b, 7, 1);
    assert!(!again.success);
    assert_eq!(again.error, Some(AdError::NoPriorVote));
}

#[test]
fn clear_ads_resets_ids_and_user_lists_but_not_registry() {
    let mut s = State::new();
    let a = ident(1);
    let b = ident(2);
    s.register_user(a, 1);
    s.register_user(b, 2);
    let first = add_valid_ad(&mut s, a, 3);
    assert_eq!(first, 1);
    let second = add_valid_ad(&mut s, a, 4);
    assert_eq!(second, 2);
    s.vote_ad(b, 5, first, VoteDirection::Up);
    s.clear_ads(b, 6);
    assert_eq!(s.get_stats().0, 0);
    let p_a = s.get_user_profile(a).unwrap();
    assert!(p_a.ads_created.is_empty());
    assert!(p_a.votes_cast.is_empty());
    let p_b = s.get_user_profile(b).unwrap();
    assert!(p_b.votes_cast.is_empty());
    assert!(s.get_auth_status(a).is_registered);
    assert!(s.get_auth_status(b).is_registered);
    let id = add_valid_ad(&mut s, a, 7);
    assert_eq!(id, 1, "the id counter must restart at 1");
}

#[test]
fn vote_error_paths() {
    let mut s = State::new();
    let a = ident(1);
    s.register_user(a, 1);
    let id = add_valid_ad(&mut s, a, 2);

    let anon = s.vote_ad(Identity::anonymous(), 3, id, VoteDirection::Up);
    assert_eq!(anon.error, Some(AdError::Unauthenticated));
    assert!(!anon.success);

    let stranger = ident(9);
    let unreg = s.vote_ad(stranger, 4, id, VoteDirection::Up);
    assert_eq!(unreg.error, Some(AdError::NotRegistered));

    let b = ident(2);
    s.register_user(b, 5);
    let missing = s.vote_ad(b, 6, 42, VoteDirection::Up);
    assert_eq!(missing.error, Some(AdError::NotFound));
    assert_eq!((missing.new_votes_up, missing.new_votes_down), (0, 0));

    let anon_rm = s.remove_vote(Identity::anonymous(), 7, id);
    assert_eq!(anon_rm.error, Some(AdError::Unauthenticated));
    let unreg_rm = s.remove_vote(stranger, 8, id);
    assert_eq!(unreg_rm.error, Some(AdError::NotRegistered));
    let missing_rm = s.remove_vote(b, 9, 42);
    assert_eq!(missing_rm.error, Some(AdError::NotFound));

    let anon_add = s.add_ad(
        Identity::anonymous(),
        10,
        "Valid Title".to_string(),
        "a description of 20c".to_string(),
        "c".to_string(),
        "t".to_string(),
        1,
        "l".to_string(),
    );
    assert_eq!(anon_add.error, Some(AdError::Unauthenticated));
    let unreg_add = s.add_ad(
        stranger,
        11,
        "Valid Title".to_string(),
        "a description of 20c".to_string(),
        "c".to_string(),
        "t".to_string(),
        1,
        "l".to_string(),
    );
    assert_eq!(unreg_add.error, Some(AdError::NotRegistered));
}

#[test]
fn tallies_count_voting_users() {
    let mut s = State::new();
    let owner = ident(1);
    s.register_user(owner, 1);
    let id = add_valid_ad(&mut s, owner, 2);
    for raw in 2..7u64 {
        let v = ident(raw);
        s.register_user(v, 10 + raw);
        let dir = if raw % 2 == 0 { VoteDirection::Up } else { VoteDirection::Down };
        assert!(s.vote_ad(v, 20 + raw, id, dir).success);
    }
    let ads = s.get_ads();
    assert_eq!(ads.len(), 1);
    assert_eq!(ads[0].ad.votes_up, 3, "voters 2, 4, 6 vote up");
    assert_eq!(ads[0].ad.votes_down, 2, "voters 3, 5 vote down");
}
