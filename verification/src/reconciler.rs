//! The membership reconciler: given a classified event and the outcomes of
//! the remote reads, it decides which corrective calls to issue, keeps the
//! pending-removal registry in step, and tolerates partial failure. The
//! surrounding process performs each planned call and feeds its outcome back
//! into the settling functions here.

use vstd::prelude::*;
use crate::config::Config;
use crate::events::{
    filter_channel_chat_got_member, spec_is_new_group_member, MembershipEvent, MemberStatus,
};
use crate::registry::PendingRemovals;

verus! {

/// One outbound write call against the remote messaging service.
///
/// The platform gives each a fixed meaning: `Kick` removes the user without
/// a permanent ban, `Ban` removes it with one, and `Unban` lifts a ban —
/// except that, applied to a current member, `Unban` acts as a plain kick.
#[derive(Clone, Copy, PartialEq, Eq, Structural, Debug)]
pub enum RemoteCall {
    Kick { chat_id: i64, user_id: u64 },
    Ban { chat_id: i64, user_id: u64 },
    Unban { chat_id: i64, user_id: u64 },
}

/// A report to be sent to the work chat, identified by the accounts it
/// names; the caller renders it as text.
#[derive(Clone, Copy, PartialEq, Eq, Structural, Debug)]
pub enum Notification {
    /// A self-join was checked against the channel and approved.
    JoinApproved { user_id: u64 },
    /// A self-joined non-channel-member was removed from the group;
    /// `banned` tells whether the follow-up ban also succeeded.
    RemovedFromGroup { user_id: u64, banned: bool },
    /// An administrator added a user that is not in the channel; reported,
    /// never auto-corrected.
    AdminInvitedNonMember { admin_id: u64, user_id: u64 },
    /// A channel departure was corrected in the group; `banned` tells
    /// whether the departure was a ban rather than a plain leave.
    ChannelDepartureHandled { user_id: u64, banned: bool },
}

/// The membership state of one chat: who is in it and who is banned from
/// it. Used to state what the corrective calls achieve.
pub struct GroupModel {
    pub members: Set<u64>,
    pub banned: Set<u64>,
}

/// The platform's documented effect of one successful call on the chat
/// `chat_id`; a call against another chat leaves this one unchanged.
pub open spec fn apply_call(g: GroupModel, call: RemoteCall, chat_id: i64) -> GroupModel {
    match call {
        RemoteCall::Kick { chat_id: c, user_id } => if c == chat_id {
            GroupModel { members: g.members.remove(user_id), banned: g.banned }
        } else {
            g
        },
        RemoteCall::Ban { chat_id: c, user_id } => if c == chat_id {
            GroupModel { members: g.members.remove(user_id), banned: g.banned.insert(user_id) }
        } else {
            g
        },
        RemoteCall::Unban { chat_id: c, user_id } => if c == chat_id {
            if g.members.contains(user_id) {
                GroupModel { members: g.members.remove(user_id), banned: g.banned }
            } else {
                GroupModel { members: g.members, banned: g.banned.remove(user_id) }
            }
        } else {
            g
        },
    }
}

// ---------------------------------------------------------------------------
// Admin-invited joins: report, never auto-correct.
// ---------------------------------------------------------------------------

/// Whether the account that added the new member is a current group
/// administrator. `admins` is the outcome of the administrator lookup;
/// a failed lookup (`None`) conservatively counts as "not an admin".
pub open spec fn spec_actor_is_admin(admins: Option<Seq<u64>>, actor_id: u64) -> bool {
    match admins {
        Some(a) => a.contains(actor_id),
        None => false,
    }
}

/// The admin-invite handler is concerned with the event: someone other than
/// the user itself added it to the group, and that someone is a current
/// group administrator. A failed administrator lookup degrades to "not
/// concerned" rather than blocking the event.
pub fn user_was_invited_to_chat_by_admin(
    cfg: &Config,
    ev: &MembershipEvent,
    admins: Option<&Vec<u64>>,
) -> (concerned: bool)
    ensures
        concerned == (spec_is_new_group_member(*cfg, *ev) && ev.actor_id
            != ev.user_id && spec_actor_is_admin(
            match admins {
                Some(a) => Some(a@),
                None => None,
            },
            ev.actor_id,
        )),
{
    if !filter_channel_chat_got_member(cfg, ev) {
        return false;
    }
    if ev.actor_id == ev.user_id {
        return false;
    }
    match admins {
        Some(a) => contains_user(a, ev.actor_id),
        None => false,
    }
}

/// Linear search for one user identifier.
fn contains_user(ids: &Vec<u64>, user_id: u64) -> (present: bool)
    ensures
        present == ids@.contains(user_id),
{
    let mut i: usize = 0;
    while i < ids.len()
        invariant
            0 <= i <= ids@.len(),
            forall|k: int| 0 <= k < i ==> ids@[k] != user_id,
        decreases ids@.len() - i,
    {
        if ids[i] == user_id {
            assert(ids@.contains(user_id));
            return true;
        }
        i += 1;
    }
    assert(!ids@.contains(user_id)) by {
        assert(forall|k: int| 0 <= k < ids@.len() ==> ids@[k] != user_id);
    }
    false
}

/// What the admin-invite handler does once the channel membership of the
/// invited user is known: nothing when the user is in the channel, and one
/// report naming both the inviting admin and the invited user when it is
/// not. No corrective call is ever part of this outcome.
pub open spec fn spec_admin_invite_outcome(ev: MembershipEvent, user_in_channel: bool) -> Option<
    Notification,
> {
    if user_in_channel {
        None
    } else {
        Some(Notification::AdminInvitedNonMember { admin_id: ev.actor_id, user_id: ev.user_id })
    }
}

/// Settles an admin-invited join, given whether the invited user turned out
/// to be a channel member.
pub fn admin_invite_outcome(ev: &MembershipEvent, user_in_channel: bool) -> (note: Option<
    Notification,
>)
    ensures
        note == spec_admin_invite_outcome(*ev, user_in_channel),
{
    if user_in_channel {
        None
    } else {
        Some(Notification::AdminInvitedNonMember { admin_id: ev.actor_id, user_id: ev.user_id })
    }
}

// ---------------------------------------------------------------------------
// Self-joins: approve, or kick and then try to ban.
// ---------------------------------------------------------------------------

/// The plan for a user that joined the group on its own.
#[derive(Clone, Copy, PartialEq, Eq, Structural, Debug)]
pub enum SelfJoinStep {
    /// The user is a channel member: report approval, touch nothing.
    Approved { note: Notification },
    /// The user is not a channel member: remove it from the group (`kick`),
    /// then attempt the permanent `ban`. The two calls are independent; a
    /// failed ban never cancels the kick.
    Corrective { kick: RemoteCall, ban: RemoteCall },
}

/// The self-join decision table, given whether the joining user is a
/// channel member.
pub open spec fn spec_self_join_step(cfg: Config, ev: MembershipEvent, user_in_channel: bool)
    -> SelfJoinStep {
    if user_in_channel {
        SelfJoinStep::Approved { note: Notification::JoinApproved { user_id: ev.user_id } }
    } else {
        SelfJoinStep::Corrective {
            kick: RemoteCall::Kick { chat_id: cfg.channel_chat_id, user_id: ev.user_id },
            ban: RemoteCall::Ban { chat_id: cfg.channel_chat_id, user_id: ev.user_id },
        }
    }
}

/// Plans the handling of a self-join, given whether the joining user is a
/// channel member.
pub fn user_joined_channel_chat(cfg: &Config, ev: &MembershipEvent, user_in_channel: bool) -> (step:
    SelfJoinStep)
    ensures
        step == spec_self_join_step(*cfg, *ev, user_in_channel),
{
    if user_in_channel {
        SelfJoinStep::Approved { note: Notification::JoinApproved { user_id: ev.user_id } }
    } else {
        SelfJoinStep::Corrective {
            kick: RemoteCall::Kick { chat_id: cfg.channel_chat_id, user_id: ev.user_id },
            ban: RemoteCall::Ban { chat_id: cfg.channel_chat_id, user_id: ev.user_id },
        }
    }
}

/// The report sent after a self-join correction whose kick succeeded:
/// the user was removed either way, and the text claims a ban exactly when
/// the follow-up ban also succeeded.
pub open spec fn spec_self_join_report(ev: MembershipEvent, ban_ok: bool) -> Notification {
    Notification::RemovedFromGroup { user_id: ev.user_id, banned: ban_ok }
}

/// Settles a self-join correction after the kick succeeded, given whether
/// the follow-up ban also did. A failed ban is a partial failure: the
/// removal stands and is still reported, only without the "banned" part.
pub fn self_join_report(ev: &MembershipEvent, ban_ok: bool) -> (note: Notification)
    ensures
        note == spec_self_join_report(*ev, ban_ok),
{
    Notification::RemovedFromGroup { user_id: ev.user_id, banned: ban_ok }
}

// ---------------------------------------------------------------------------
// Channel departures: remove from the group and await the platform's notice.
// ---------------------------------------------------------------------------

/// The corrective call a channel departure asks for. A plain leave takes an
/// unban-style call (which, against a current member, kicks without
/// banning); a channel ban takes a ban-style call (removal with a permanent
/// ban). Any other transition is a classifier defect and asks for nothing.
pub open spec fn spec_departure_call(cfg: Config, ev: MembershipEvent) -> Option<RemoteCall> {
    if ev.new_status == MemberStatus::Left {
        Some(RemoteCall::Unban { chat_id: cfg.channel_chat_id, user_id: ev.user_id })
    } else if ev.new_status == MemberStatus::Banned {
        Some(RemoteCall::Ban { chat_id: cfg.channel_chat_id, user_id: ev.user_id })
    } else {
        None
    }
}

/// The first phase of handling a channel departure.
#[derive(Clone, Copy, PartialEq, Eq, Structural, Debug)]
pub enum DepartureStep {
    /// The departed user is not in the group: no invariant violation,
    /// nothing to do.
    NotInGroup,
    /// The user is in the group: it is now registered as pending removal
    /// and `call` must be issued against the group.
    Corrective { call: RemoteCall },
    /// The event reached this handler in a transition the classifier should
    /// have excluded: the speculative registry entry was rolled back and no
    /// call is made.
    Defect,
}

/// Begins handling a channel departure, given whether the departed user is
/// currently a group member. When a corrective call is planned, the user is
/// first recorded in the pending-removal registry, anticipating the
/// group-departure notice the call will trigger; on the defect path the
/// speculative entry is rolled back (removed) again.
pub fn user_left_or_was_kicked_from_channel(
    cfg: &Config,
    ev: &MembershipEvent,
    user_in_group: bool,
    pending: &mut PendingRemovals,
) -> (step: DepartureStep)
    ensures
        !user_in_group ==> step == DepartureStep::NotInGroup && final(pending)@ == old(pending)@,
        user_in_group ==> match spec_departure_call(*cfg, *ev) {
            Some(call) => step == (DepartureStep::Corrective { call }) && final(pending)@ == old(
                pending,
            )@.insert(ev.user_id),
            None => step == DepartureStep::Defect && final(pending)@ == old(pending)@.remove(
                ev.user_id,
            ),
        },
{
    if !user_in_group {
        return DepartureStep::NotInGroup;
    }
    pending.add(ev.user_id);
    if ev.new_status == MemberStatus::Left {
        DepartureStep::Corrective {
            call: RemoteCall::Unban { chat_id: cfg.channel_chat_id, user_id: ev.user_id },
        }
    } else if ev.new_status == MemberStatus::Banned {
        DepartureStep::Corrective {
            call: RemoteCall::Ban { chat_id: cfg.channel_chat_id, user_id: ev.user_id },
        }
    } else {
        pending.remove(ev.user_id);
        DepartureStep::Defect
    }
}

/// The report sent after a successful departure correction.
pub open spec fn spec_departure_notification(ev: MembershipEvent) -> Notification {
    Notification::ChannelDepartureHandled {
        user_id: ev.user_id,
        banned: ev.new_status == MemberStatus::Banned,
    }
}

/// Settles a departure correction once its corrective call has been
/// attempted. On success the registry entry stays (the group's own notice
/// is still to come) and the outcome is reported; on failure the entry is
/// rolled back and no report is made — the caller propagates the failure.
pub fn departure_settle(ev: &MembershipEvent, call_ok: bool, pending: &mut PendingRemovals) -> (note:
    Option<Notification>)
    ensures
        call_ok ==> final(pending)@ == old(pending)@ && note == Some(
            spec_departure_notification(*ev),
        ),
        !call_ok ==> final(pending)@ == old(pending)@.remove(ev.user_id) && note == None::<
            Notification,
        >,
{
    if call_ok {
        Some(
            Notification::ChannelDepartureHandled {
                user_id: ev.user_id,
                banned: ev.new_status == MemberStatus::Banned,
            },
        )
    } else {
        pending.remove(ev.user_id);
        None
    }
}

} // verus!
