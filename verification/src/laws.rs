//! The guarantees the reconciliation engine is built for, stated across the
//! components and proved from their contracts.

use vstd::prelude::*;
use crate::config::Config;
use crate::events::{MembershipEvent, spec_is_channel_departure};
use crate::reconciler::{
    apply_call, spec_admin_invite_outcome, spec_departure_call, spec_self_join_report,
    spec_self_join_step, GroupModel, Notification, RemoteCall, SelfJoinStep,
};
use crate::suppressor::{spec_suppress, ServiceNotice, SuppressStep};

verus! {

/// Whenever the reconciler completes the corrective branch for a channel
/// departure, the departed user is no longer a group member. (When the user
/// never was one, the handler plans nothing and the event is a no-op, as
/// [`crate::reconciler::user_left_or_was_kicked_from_channel`] ensures.)
pub proof fn lemma_departure_correction_removes_user(
    cfg: Config,
    ev: MembershipEvent,
    g: GroupModel,
)
    requires
        spec_is_channel_departure(cfg, ev),
        g.members.contains(ev.user_id),
    ensures
        spec_departure_call(cfg, ev) is Some,
        !apply_call(g, spec_departure_call(cfg, ev).unwrap(), cfg.channel_chat_id)
            .members.contains(ev.user_id),
{
}

/// A user the channel-departure handler put into the pending-removal
/// registry never stays there: the matching group service notice consumes
/// the entry (the suppressor's success path), and settling a failed
/// corrective call consumes it as well (the reconciler's rollback path,
/// which removes the inserted identifier again, as
/// [`crate::reconciler::departure_settle`] ensures).
pub proof fn lemma_pending_entry_always_resolved(
    cfg: Config,
    notice: ServiceNotice,
    pending: Set<u64>,
)
    requires
        notice.chat_id == cfg.channel_chat_id,
    ensures
        !spec_suppress(cfg, notice, pending.insert(notice.removed_user_id)).0.contains(
            notice.removed_user_id,
        ),
        !pending.insert(notice.removed_user_id).remove(notice.removed_user_id).contains(
            notice.removed_user_id,
        ),
{
}

/// Suppression is idempotent: however one delivery of a service notice left
/// the registry, delivering the very same notice again changes nothing and
/// asks for no action.
pub proof fn lemma_suppression_idempotent(cfg: Config, notice: ServiceNotice, pending: Set<u64>)
    ensures
        spec_suppress(cfg, notice, spec_suppress(cfg, notice, pending).0).1
            == SuppressStep::Ignore,
        spec_suppress(cfg, notice, spec_suppress(cfg, notice, pending).0).0 == spec_suppress(
            cfg,
            notice,
            pending,
        ).0,
{
}

/// Partial failure of a self-join correction: when the kick succeeds and
/// the follow-up ban fails, the user is still out of the group, is not
/// banned, and the report that goes out describes an unblocked removal.
pub proof fn lemma_partial_failure_keeps_removal(cfg: Config, ev: MembershipEvent, g: GroupModel)
    requires
        !g.banned.contains(ev.user_id),
    ensures
        spec_self_join_step(cfg, ev, false) == (SelfJoinStep::Corrective {
            kick: RemoteCall::Kick { chat_id: cfg.channel_chat_id, user_id: ev.user_id },
            ban: RemoteCall::Ban { chat_id: cfg.channel_chat_id, user_id: ev.user_id },
        }),
        !apply_call(
            g,
            RemoteCall::Kick { chat_id: cfg.channel_chat_id, user_id: ev.user_id },
            cfg.channel_chat_id,
        ).members.contains(ev.user_id),
        !apply_call(
            g,
            RemoteCall::Kick { chat_id: cfg.channel_chat_id, user_id: ev.user_id },
            cfg.channel_chat_id,
        ).banned.contains(ev.user_id),
        spec_self_join_report(ev, false) == (Notification::RemovedFromGroup {
            user_id: ev.user_id,
            banned: false,
        }),
{
}

/// An admin-invited violation is reported, never auto-corrected: when the
/// invited user is not a channel member the outcome is exactly one
/// notification naming both the inviting admin and the invited user, when
/// it is a member the outcome is nothing — and the outcome carries no
/// corrective call in either case.
pub proof fn lemma_admin_invite_only_reports(ev: MembershipEvent)
    ensures
        spec_admin_invite_outcome(ev, false) == Some(
            Notification::AdminInvitedNonMember { admin_id: ev.actor_id, user_id: ev.user_id },
        ),
        spec_admin_invite_outcome(ev, true) == None::<Notification>,
{
}

} // verus!
