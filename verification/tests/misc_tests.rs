use reconciler::config::Config;
use reconciler::misc::{create_username_or_default, FormatArgument};

#[test]
fn username_becomes_a_mention() {
    let name = String::from("someone");
    assert_eq!(create_username_or_default("(hidden)", Some(&name)), "@someone");
}

#[test]
fn missing_username_falls_back_to_the_default() {
    assert_eq!(create_username_or_default("(hidden)", None), "(hidden)");
}

#[test]
fn non_empty_text_gains_a_comma() {
    let s = String::from("Ada");
    assert_eq!(s.end_with_comma_if_not_empty(), "Ada, ");
}

#[test]
fn empty_text_stays_empty() {
    let s = String::new();
    assert_eq!(s.end_with_comma_if_not_empty(), "");
}

#[test]
fn config_keeps_the_given_identities() {
    let cfg = Config::new(-1, -2, -3, Some(9));
    assert_eq!(cfg.channel_id, -1);
    assert_eq!(cfg.channel_chat_id, -2);
    assert_eq!(cfg.work_chat_id, -3);
    assert_eq!(cfg.maintainer_id, Some(9));
    let bare = Config::new(-1, -2, -3, None);
    assert_eq!(bare.maintainer_id, None);
}
