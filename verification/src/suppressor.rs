//! The notice suppressor: when the group posts its own "member removed"
//! service notice for a user the reconciler just removed, the notice is
//! deleted and the pending-removal entry is cleared.

use vstd::prelude::*;
use crate::config::Config;
use crate::registry::PendingRemovals;

verus! {

/// A platform-generated service message reporting that `removed_user_id`
/// left chat `chat_id`; `message_id` identifies the message so it can be
/// deleted.
#[derive(Clone, Copy, PartialEq, Eq, Structural, Debug)]
pub struct ServiceNotice {
    pub chat_id: i64,
    pub message_id: i32,
    pub removed_user_id: u64,
}

/// What the suppressor asks the caller to do with one notice.
#[derive(Clone, Copy, PartialEq, Eq, Structural, Debug)]
pub enum SuppressStep {
    /// The notice correlates with a pending removal: delete it from the
    /// chat. The registry entry is already cleared, whether or not the
    /// deletion then succeeds — suppression is best-effort.
    Delete { chat_id: i64, message_id: i32 },
    /// The notice is not ours to handle: leave it alone.
    Ignore,
}

/// A notice is unhandled when it is in the group and names a user still
/// awaiting its departure notice.
pub open spec fn spec_notice_matches(cfg: Config, notice: ServiceNotice, pending: Set<u64>) -> bool {
    notice.chat_id == cfg.channel_chat_id && pending.contains(notice.removed_user_id)
}

/// What one delivery of a notice does: the registry it leaves behind and
/// the step it asks for.
pub open spec fn spec_suppress(cfg: Config, notice: ServiceNotice, pending: Set<u64>) -> (
    Set<u64>,
    SuppressStep,
) {
    if spec_notice_matches(cfg, notice, pending) {
        (
            pending.remove(notice.removed_user_id),
            SuppressStep::Delete { chat_id: notice.chat_id, message_id: notice.message_id },
        )
    } else {
        (pending, SuppressStep::Ignore)
    }
}

/// The pure classifier predicate: the notice names a user whose removal is
/// still awaiting this very notice.
pub fn is_unhandled_service_notice(
    cfg: &Config,
    notice: &ServiceNotice,
    pending: &PendingRemovals,
) -> (matches: bool)
    ensures
        matches == spec_notice_matches(*cfg, *notice, pending@),
{
    notice.chat_id == cfg.channel_chat_id && pending.contains(notice.removed_user_id)
}

/// Consumes one service notice: when it correlates with a pending removal,
/// the registry entry is cleared and the caller is asked to delete the
/// notice; otherwise nothing changes. Matching and clearing are one step,
/// so the same notice can never be consumed twice.
pub fn user_was_kicked_from_channel_chat(
    cfg: &Config,
    notice: &ServiceNotice,
    pending: &mut PendingRemovals,
) -> (step: SuppressStep)
    ensures
        final(pending)@ == spec_suppress(*cfg, *notice, old(pending)@).0,
        step == spec_suppress(*cfg, *notice, old(pending)@).1,
{
    if notice.chat_id == cfg.channel_chat_id {
        let ghost prior = pending@;
        let was_pending = pending.remove(notice.removed_user_id);
        if was_pending {
            SuppressStep::Delete { chat_id: notice.chat_id, message_id: notice.message_id }
        } else {
            proof {
                assert(pending@ =~= prior);
            }
            SuppressStep::Ignore
        }
    } else {
        SuppressStep::Ignore
    }
}

} // verus!
