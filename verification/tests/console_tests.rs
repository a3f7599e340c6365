use reconciler::config::Config;
use reconciler::console::{
    maintainer_sent_command, parse_admin_command, parse_checkhealth_command,
    sent_checkhealth_command, AdminAction, AdminCommand,
};
use reconciler::reconciler::RemoteCall;

const CHANNEL: i64 = -1001;
const GROUP: i64 = -1002;
const WORK: i64 = -1003;
const MAINTAINER: u64 = 42;

fn cfg() -> Config {
    Config::new(CHANNEL, GROUP, WORK, Some(MAINTAINER))
}

#[test]
fn commands_map_to_the_documented_actions() {
    let cfg = cfg();
    let run = |cmd| maintainer_sent_command(&cfg, true, Some(MAINTAINER), cmd);
    assert_eq!(
        run(AdminCommand::ListIds),
        Some(AdminAction::ShowIds { channel_id: CHANNEL, group_id: GROUP, work_chat_id: WORK })
    );
    assert_eq!(
        run(AdminCommand::UnbanInGroup),
        Some(AdminAction::Invoke {
            call: RemoteCall::Unban { chat_id: GROUP, user_id: MAINTAINER }
        })
    );
    assert_eq!(
        run(AdminCommand::UnbanInChannel),
        Some(AdminAction::Invoke {
            call: RemoteCall::Unban { chat_id: CHANNEL, user_id: MAINTAINER }
        })
    );
    assert_eq!(
        run(AdminCommand::KickAndBanInChannel),
        Some(AdminAction::Invoke {
            call: RemoteCall::Ban { chat_id: CHANNEL, user_id: MAINTAINER }
        })
    );
    // the kick without a ban goes through an unban-style call
    assert_eq!(
        run(AdminCommand::KickInChannel),
        Some(AdminAction::Invoke {
            call: RemoteCall::Unban { chat_id: CHANNEL, user_id: MAINTAINER }
        })
    );
    assert_eq!(run(AdminCommand::Help), Some(AdminAction::ShowHelp));
}

#[test]
fn console_refuses_everyone_but_the_maintainer_in_private() {
    let cfg = cfg();
    // not a private conversation
    assert_eq!(maintainer_sent_command(&cfg, false, Some(MAINTAINER), AdminCommand::Help), None);
    // someone else
    assert_eq!(maintainer_sent_command(&cfg, true, Some(7), AdminCommand::Help), None);
    // unknown sender
    assert_eq!(maintainer_sent_command(&cfg, true, None, AdminCommand::Help), None);
    // no maintainer configured at all
    let no_maintainer = Config::new(CHANNEL, GROUP, WORK, None);
    assert_eq!(
        maintainer_sent_command(&no_maintainer, true, Some(MAINTAINER), AdminCommand::Help),
        None
    );
}

#[test]
fn command_words_parse_and_nothing_else_does() {
    assert_eq!(parse_admin_command("/ids"), Some(AdminCommand::ListIds));
    assert_eq!(parse_admin_command("/unbanchat"), Some(AdminCommand::UnbanInGroup));
    assert_eq!(parse_admin_command("/unbanchannel"), Some(AdminCommand::UnbanInChannel));
    assert_eq!(parse_admin_command("/kickandban"), Some(AdminCommand::KickAndBanInChannel));
    assert_eq!(parse_admin_command("/kick"), Some(AdminCommand::KickInChannel));
    assert_eq!(parse_admin_command("/help"), Some(AdminCommand::Help));
    assert_eq!(parse_admin_command("/pong"), None);
    assert_eq!(parse_admin_command(""), None);
    assert_eq!(parse_admin_command("/kickandbans"), None);
    assert!(parse_checkhealth_command("/ping"));
    assert!(!parse_checkhealth_command("/pingg"));
}

#[test]
fn checkhealth_answers_pong_only_in_private() {
    assert_eq!(sent_checkhealth_command(true).as_deref(), Some("pong"));
    assert_eq!(sent_checkhealth_command(false), None);
}
