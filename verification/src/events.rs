//! The membership-change events the platform delivers and the pure
//! classifier that routes each one to the right handler.

use vstd::prelude::*;
use crate::config::Config;

verus! {

/// A user's standing in one chat, as the platform reports it. An account
/// outside a chat is reported either as never having joined or as having
/// left it; both mean "not present".
#[derive(Clone, Copy, PartialEq, Eq, Structural, Debug)]
pub enum MemberStatus {
    NotMember,
    Member,
    Left,
    Banned,
}

impl MemberStatus {
    /// True of the two statuses that mean the account is not in the chat
    /// and not banned from it.
    pub open spec fn spec_is_absent(self) -> bool {
        self == MemberStatus::NotMember || self == MemberStatus::Left
    }

    /// Executable form of [`MemberStatus::spec_is_absent`].
    pub fn is_absent(self) -> (r: bool)
        ensures
            r == self.spec_is_absent(),
    {
        self == MemberStatus::NotMember || self == MemberStatus::Left
    }
}

/// One membership transition: in chat `chat_id`, the standing of
/// `user_id` changed from `old_status` to `new_status`, caused by
/// `actor_id` (the user itself when it joined or left on its own).
#[derive(Clone, Copy, PartialEq, Eq, Structural, Debug)]
pub struct MembershipEvent {
    pub chat_id: i64,
    pub user_id: u64,
    pub actor_id: u64,
    pub old_status: MemberStatus,
    pub new_status: MemberStatus,
}

/// The event concerns the discussion group.
pub open spec fn spec_is_group_chat(cfg: Config, chat_id: i64) -> bool {
    chat_id == cfg.channel_chat_id
}

/// An account was just added to the group: the event is in the group, the
/// user was absent, and it is now a member.
pub open spec fn spec_is_new_group_member(cfg: Config, ev: MembershipEvent) -> bool {
    &&& spec_is_group_chat(cfg, ev.chat_id)
    &&& ev.old_status.spec_is_absent()
    &&& ev.new_status == MemberStatus::Member
}

/// An account just left or was removed from the channel: the event is in
/// the channel, the user was a member, and it is now gone or banned.
pub open spec fn spec_is_channel_departure(cfg: Config, ev: MembershipEvent) -> bool {
    &&& ev.chat_id == cfg.channel_id
    &&& ev.old_status == MemberStatus::Member
    &&& (ev.new_status == MemberStatus::Left || ev.new_status == MemberStatus::Banned)
}

/// The event happened in the discussion group.
pub fn filter_channel_chat(cfg: &Config, chat_id: i64) -> (r: bool)
    ensures
        r == spec_is_group_chat(*cfg, chat_id),
{
    chat_id == cfg.channel_chat_id
}

/// The group just gained a member.
pub fn filter_channel_chat_got_member(cfg: &Config, ev: &MembershipEvent) -> (r: bool)
    ensures
        r == spec_is_new_group_member(*cfg, *ev),
{
    filter_channel_chat(cfg, ev.chat_id) && ev.old_status.is_absent() && ev.new_status
        == MemberStatus::Member
}

/// The channel just lost a member.
pub fn filter_channel_lost_member(cfg: &Config, ev: &MembershipEvent) -> (r: bool)
    ensures
        r == spec_is_channel_departure(*cfg, *ev),
{
    ev.chat_id == cfg.channel_id && ev.old_status == MemberStatus::Member && (ev.new_status
        == MemberStatus::Left || ev.new_status == MemberStatus::Banned)
}

/// Where a membership-change event is routed.
#[derive(Clone, Copy, PartialEq, Eq, Structural, Debug)]
pub enum UpdateClass {
    /// Someone other than the user itself added it to the group; the
    /// admin-invite handler must still confirm the actor is an
    /// administrator before acting.
    AdminInviteCandidate,
    /// The user joined the group on its own.
    SelfJoin,
    /// The user left or was removed from the channel.
    ChannelDeparture,
    /// No handler is concerned.
    Unclassified,
}

/// The classification decision table, in the same priority order in which
/// the handlers are tried: group joins first (split by whether the user
/// added itself), then channel departures.
pub open spec fn spec_classify(cfg: Config, ev: MembershipEvent) -> UpdateClass {
    if spec_is_new_group_member(cfg, ev) {
        if ev.actor_id != ev.user_id {
            UpdateClass::AdminInviteCandidate
        } else {
            UpdateClass::SelfJoin
        }
    } else if spec_is_channel_departure(cfg, ev) {
        UpdateClass::ChannelDeparture
    } else {
        UpdateClass::Unclassified
    }
}

/// Routes one membership-change event.
pub fn classify_member_update(cfg: &Config, ev: &MembershipEvent) -> (class: UpdateClass)
    ensures
        class == spec_classify(*cfg, *ev),
{
    if filter_channel_chat_got_member(cfg, ev) {
        if ev.actor_id != ev.user_id {
            UpdateClass::AdminInviteCandidate
        } else {
            UpdateClass::SelfJoin
        }
    } else if filter_channel_lost_member(cfg, ev) {
        UpdateClass::ChannelDeparture
    } else {
        UpdateClass::Unclassified
    }
}

} // verus!
