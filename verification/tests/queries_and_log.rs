use project_ads::state::State;
use project_ads::{Identity, LogLevel, VoteDirection};

fn ident(raw: u64) -> Identity {
    Identity::new(raw)
}

fn add_ad_titled(s: &mut State, owner: Identity, now: u64, title: &str) -> u64 {
    let r = s.add_ad(
        owner,
        now,
        title.to_string(),
        "a description of 20c".to_string(),
        "contact".to_string(),
        "tech".to_string(),
        3,
        "link".to_string(),
    );
    assert!(r.success);
    r.ad_id.unwrap()
}

#[test]
fn sorted_by_score_descending_with_id_ties_ascending() {
    let mut s = State::new();
    let owner = ident(1);
    let v1 = ident(2);
    let v2 = ident(3);
    s.register_user(owner, 1);
    s.register_user(v1, 2);
    s.register_user(v2, 3);
    let first = add_ad_titled(&mut s, owner, 4, "First Ad");
    let second = add_ad_titled(&mut s, owner, 5, "Second Ad");
    let third = add_ad_titled(&mut s, owner, 6, "Third Ad");
    // scores: first 0, second +2, third -1
    s.vote_ad(v1, 7, second, VoteDirection::Up);
    s.vote_ad(v2, 8, second, VoteDirection::Up);
    s.vote_ad(v1, 9, third, VoteDirection::Down);
    // a fourth ad tying with the first at score 0
    let fourth = add_ad_titled(&mut s, owner, 10, "Fourth Ad");
    let sorted = s.get_ads_sorted_by_votes();
    let ids: Vec<u64> = sorted.iter().map(|e| e.id).collect();
    assert_eq!(ids, vec![second, first, fourth, third]);
    assert_eq!(sorted[0].ad.title, "Second Ad");
}

#[test]
fn ads_by_user_filters_by_owner() {
    let mut s = State::new();
    let a = ident(1);
    let b = ident(2);
    s.register_user(a, 1);
    s.register_user(b, 2);
    let first = add_ad_titled(&mut s, a, 3, "From A One");
    let second = add_ad_titled(&mut s, b, 4, "From B Only");
    let third = add_ad_titled(&mut s, a, 5, "From A Two");
    let of_a = s.get_ads_by_user(a);
    let ids_a: Vec<u64> = of_a.iter().map(|e| e.id).collect();
    assert_eq!(ids_a, vec![first, third]);
    let of_b = s.get_ads_by_user(b);
    let ids_b: Vec<u64> = of_b.iter().map(|e| e.id).collect();
    assert_eq!(ids_b, vec![second]);
    assert!(s.get_ads_by_user(ident(9)).is_empty());
}

#[test]
fn stats_report_all_three_counts() {
    let mut s = State::new();
    let a = ident(1);
    s.register_user(a, 1);
    add_ad_titled(&mut s, a, 2, "Only Ad Here");
    let (ads, users, logs) = s.get_stats();
    assert_eq!(ads, 1);
    assert_eq!(users, 1);
    // one log entry per write operation so far: register + add
    assert_eq!(logs, 2);
}

#[test]
fn profile_and_vote_lookup_for_anonymous() {
    let mut s = State::new();
    assert!(s.get_user_profile(Identity::anonymous()).is_none());
    assert!(s.get_user_vote_on_ad(Identity::anonymous(), 1).is_none());
    assert!(s.get_user_profile(ident(5)).is_none());
    assert!(s.get_user_vote_on_ad(ident(5), 1).is_none());
}

#[test]
fn log_tail_default_limit_is_100() {
    let mut s = State::new();
    for t in 0..150u64 {
        s.record(LogLevel::Info, format!("entry {}", t), None, t);
    }
    let tail = s.get_logs(None);
    assert_eq!(tail.len(), 100);
    assert_eq!(tail[0].timestamp, 50);
    assert_eq!(tail[99].timestamp, 149);
    let short = s.get_logs(Some(10));
    assert_eq!(short.len(), 10);
    assert_eq!(short[0].timestamp, 140);
    let all = s.get_logs(Some(1000));
    assert_eq!(all.len(), 150);
}

#[test]
fn log_is_bounded_to_1000_entries() {
    let mut s = State::new();
    for t in 0..1001u64 {
        s.record(LogLevel::Warn, "audit".to_string(), Some(ident(1)), t);
    }
    let all = s.get_logs(Some(5000));
    assert_eq!(all.len(), 1000, "the log must never exceed 1000 entries");
    assert_eq!(all[0].timestamp, 1, "the oldest entry must have been evicted");
    assert_eq!(all[999].timestamp, 1000, "the newest entry must be present");
    assert_eq!(all[999].level, LogLevel::Warn);
    assert_eq!(all[999].identity, Some(ident(1)));
}

#[test]
fn operations_write_audit_entries() {
    let mut s = State::new();
    s.register_user(Identity::anonymous(), 1);
    let logs = s.get_logs(None);
    assert_eq!(logs.len(), 1);
    assert_eq!(logs[0].level, LogLevel::Error);
    let a = ident(1);
    s.register_user(a, 2);
    let logs = s.get_logs(None);
    assert_eq!(logs[1].level, LogLevel::Info);
    assert_eq!(logs[1].identity, Some(a));
    s.clear_ads(a, 3);
    let logs = s.get_logs(None);
    assert_eq!(logs[2].level, LogLevel::Warn);
}
