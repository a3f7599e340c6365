use reconciler::config::Config;
use reconciler::events::{
    classify_member_update, filter_channel_chat, filter_channel_chat_got_member,
    filter_channel_lost_member, MemberStatus, MembershipEvent, UpdateClass,
};

const CHANNEL: i64 = -1001;
const GROUP: i64 = -1002;
const WORK: i64 = -1003;

fn cfg() -> Config {
    Config::new(CHANNEL, GROUP, WORK, Some(42))
}

fn event(chat_id: i64, user_id: u64, actor_id: u64, old: MemberStatus, new: MemberStatus)
    -> MembershipEvent {
    MembershipEvent { chat_id, user_id, actor_id, old_status: old, new_status: new }
}

#[test]
fn group_chat_filter_matches_only_the_group() {
    let cfg = cfg();
    assert!(filter_channel_chat(&cfg, GROUP));
    assert!(!filter_channel_chat(&cfg, CHANNEL));
    assert!(!filter_channel_chat(&cfg, WORK));
}

#[test]
fn got_member_requires_absent_to_member_in_group() {
    let cfg = cfg();
    assert!(filter_channel_chat_got_member(
        &cfg,
        &event(GROUP, 5, 5, MemberStatus::Left, MemberStatus::Member)
    ));
    assert!(filter_channel_chat_got_member(
        &cfg,
        &event(GROUP, 5, 5, MemberStatus::NotMember, MemberStatus::Member)
    ));
    // wrong chat
    assert!(!filter_channel_chat_got_member(
        &cfg,
        &event(CHANNEL, 5, 5, MemberStatus::Left, MemberStatus::Member)
    ));
    // was already a member
    assert!(!filter_channel_chat_got_member(
        &cfg,
        &event(GROUP, 5, 5, MemberStatus::Member, MemberStatus::Member)
    ));
    // was banned, not merely absent
    assert!(!filter_channel_chat_got_member(
        &cfg,
        &event(GROUP, 5, 5, MemberStatus::Banned, MemberStatus::Member)
    ));
}

#[test]
fn lost_member_requires_member_to_left_or_banned_in_channel() {
    let cfg = cfg();
    assert!(filter_channel_lost_member(
        &cfg,
        &event(CHANNEL, 5, 5, MemberStatus::Member, MemberStatus::Left)
    ));
    assert!(filter_channel_lost_member(
        &cfg,
        &event(CHANNEL, 5, 7, MemberStatus::Member, MemberStatus::Banned)
    ));
    // wrong chat
    assert!(!filter_channel_lost_member(
        &cfg,
        &event(GROUP, 5, 5, MemberStatus::Member, MemberStatus::Left)
    ));
    // was not a member
    assert!(!filter_channel_lost_member(
        &cfg,
        &event(CHANNEL, 5, 5, MemberStatus::Left, MemberStatus::Left)
    ));
    // did not leave
    assert!(!filter_channel_lost_member(
        &cfg,
        &event(CHANNEL, 5, 5, MemberStatus::Member, MemberStatus::Member)
    ));
}

#[test]
fn classification_routes_by_actor_and_chat() {
    let cfg = cfg();
    assert_eq!(
        classify_member_update(&cfg, &event(GROUP, 5, 9, MemberStatus::Left, MemberStatus::Member)),
        UpdateClass::AdminInviteCandidate
    );
    assert_eq!(
        classify_member_update(&cfg, &event(GROUP, 5, 5, MemberStatus::Left, MemberStatus::Member)),
        UpdateClass::SelfJoin
    );
    assert_eq!(
        classify_member_update(
            &cfg,
            &event(CHANNEL, 5, 5, MemberStatus::Member, MemberStatus::Left)
        ),
        UpdateClass::ChannelDeparture
    );
    assert_eq!(
        classify_member_update(
            &cfg,
            &event(WORK, 5, 5, MemberStatus::Left, MemberStatus::Member)
        ),
        UpdateClass::Unclassified
    );
}
