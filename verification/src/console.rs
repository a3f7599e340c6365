//! The maintainer console: a handful of manual overrides of the remote API,
//! honoured only for the configured maintainer in a private conversation,
//! plus the public health-check command.

use vstd::prelude::*;
use vstd::string::StringExecFns;
use crate::config::Config;
use crate::reconciler::RemoteCall;

verus! {

/// A command the maintainer can send in a private conversation.
#[derive(Clone, Copy, PartialEq, Eq, Structural, Debug)]
pub enum AdminCommand {
    /// Show the configured chat identities.
    ListIds,
    /// Lift the maintainer's ban in the group.
    UnbanInGroup,
    /// Lift the maintainer's ban in the channel.
    UnbanInChannel,
    /// Remove the maintainer from the channel with a permanent ban.
    KickAndBanInChannel,
    /// Remove the maintainer from the channel without a ban.
    KickInChannel,
    /// Show the command summary.
    Help,
}

/// What the console asks the caller to do for one accepted command.
#[derive(Clone, Copy, PartialEq, Eq, Structural, Debug)]
pub enum AdminAction {
    /// Issue this call against the remote API.
    Invoke { call: RemoteCall },
    /// Reply with the three configured chat identities.
    ShowIds { channel_id: i64, group_id: i64, work_chat_id: i64 },
    /// Reply with the command summary.
    ShowHelp,
}

/// A console command is honoured only in a private conversation, only when
/// a maintainer is configured, and only from that maintainer.
pub open spec fn spec_console_authorized(
    cfg: Config,
    chat_is_private: bool,
    sender_id: Option<u64>,
) -> bool {
    &&& chat_is_private
    &&& cfg.maintainer_id is Some
    &&& sender_id == cfg.maintainer_id
}

/// The action each command stands for, once authorized. The kick without a
/// ban goes through an unban-style call, which against a current member
/// acts as a plain kick.
pub open spec fn spec_admin_action(cfg: Config, maintainer_id: u64, cmd: AdminCommand)
    -> AdminAction {
    match cmd {
        AdminCommand::ListIds => AdminAction::ShowIds {
            channel_id: cfg.channel_id,
            group_id: cfg.channel_chat_id,
            work_chat_id: cfg.work_chat_id,
        },
        AdminCommand::UnbanInGroup => AdminAction::Invoke {
            call: RemoteCall::Unban { chat_id: cfg.channel_chat_id, user_id: maintainer_id },
        },
        AdminCommand::UnbanInChannel => AdminAction::Invoke {
            call: RemoteCall::Unban { chat_id: cfg.channel_id, user_id: maintainer_id },
        },
        AdminCommand::KickAndBanInChannel => AdminAction::Invoke {
            call: RemoteCall::Ban { chat_id: cfg.channel_id, user_id: maintainer_id },
        },
        AdminCommand::KickInChannel => AdminAction::Invoke {
            call: RemoteCall::Unban { chat_id: cfg.channel_id, user_id: maintainer_id },
        },
        AdminCommand::Help => AdminAction::ShowHelp,
    }
}

/// The console's command words, each a whole message of its own.
pub open spec fn spec_parse_admin_command(text: Seq<char>) -> Option<AdminCommand> {
    if text == "/ids"@ {
        Some(AdminCommand::ListIds)
    } else if text == "/unbanchat"@ {
        Some(AdminCommand::UnbanInGroup)
    } else if text == "/unbanchannel"@ {
        Some(AdminCommand::UnbanInChannel)
    } else if text == "/kickandban"@ {
        Some(AdminCommand::KickAndBanInChannel)
    } else if text == "/kick"@ {
        Some(AdminCommand::KickInChannel)
    } else if text == "/help"@ {
        Some(AdminCommand::Help)
    } else {
        None
    }
}

/// Reads one message as a console command; anything that is not exactly a
/// command word is no command.
pub fn parse_admin_command(text: &str) -> (cmd: Option<AdminCommand>)
    ensures
        cmd == spec_parse_admin_command(text@),
{
    let owned = text.to_owned();
    if owned == String::from_str("/ids") {
        Some(AdminCommand::ListIds)
    } else if owned == String::from_str("/unbanchat") {
        Some(AdminCommand::UnbanInGroup)
    } else if owned == String::from_str("/unbanchannel") {
        Some(AdminCommand::UnbanInChannel)
    } else if owned == String::from_str("/kickandban") {
        Some(AdminCommand::KickAndBanInChannel)
    } else if owned == String::from_str("/kick") {
        Some(AdminCommand::KickInChannel)
    } else if owned == String::from_str("/help") {
        Some(AdminCommand::Help)
    } else {
        None
    }
}

/// The health-check command word, available to anyone in private.
pub open spec fn spec_is_ping(text: Seq<char>) -> bool {
    text == "/ping"@
}

/// Whether one message is the health-check command.
pub fn parse_checkhealth_command(text: &str) -> (is_ping: bool)
    ensures
        is_ping == spec_is_ping(text@),
{
    text.to_owned() == String::from_str("/ping")
}

/// Handles one console command: the action to take when the sender is the
/// configured maintainer writing in private, and nothing otherwise.
pub fn maintainer_sent_command(
    cfg: &Config,
    chat_is_private: bool,
    sender_id: Option<u64>,
    cmd: AdminCommand,
) -> (action: Option<AdminAction>)
    ensures
        spec_console_authorized(*cfg, chat_is_private, sender_id) ==> action == Some(
            spec_admin_action(*cfg, cfg.maintainer_id.unwrap(), cmd),
        ),
        !spec_console_authorized(*cfg, chat_is_private, sender_id) ==> action == None::<
            AdminAction,
        >,
{
    if !chat_is_private {
        return None;
    }
    let maintainer_id = match cfg.maintainer_id {
        Some(id) => id,
        None => {
            return None;
        },
    };
    match sender_id {
        Some(sender) if sender == maintainer_id => Some(
            match cmd {
                AdminCommand::ListIds => AdminAction::ShowIds {
                    channel_id: cfg.channel_id,
                    group_id: cfg.channel_chat_id,
                    work_chat_id: cfg.work_chat_id,
                },
                AdminCommand::UnbanInGroup => AdminAction::Invoke {
                    call: RemoteCall::Unban {
                        chat_id: cfg.channel_chat_id,
                        user_id: maintainer_id,
                    },
                },
                AdminCommand::UnbanInChannel => AdminAction::Invoke {
                    call: RemoteCall::Unban { chat_id: cfg.channel_id, user_id: maintainer_id },
                },
                AdminCommand::KickAndBanInChannel => AdminAction::Invoke {
                    call: RemoteCall::Ban { chat_id: cfg.channel_id, user_id: maintainer_id },
                },
                AdminCommand::KickInChannel => AdminAction::Invoke {
                    call: RemoteCall::Unban { chat_id: cfg.channel_id, user_id: maintainer_id },
                },
                AdminCommand::Help => AdminAction::ShowHelp,
            },
        ),
        _ => None,
    }
}

/// Handles the health-check command: it is answered with `pong`, but only
/// in a private conversation.
pub fn sent_checkhealth_command(chat_is_private: bool) -> (reply: Option<String>)
    ensures
        chat_is_private ==> (reply matches Some(s) && s@ == "pong"@),
        !chat_is_private ==> reply is None,
{
    if chat_is_private {
        Some(String::from_str("pong"))
    } else {
        None
    }
}

} // verus!
