use gateway_client::message::{
    dispatch_inbound, install_reply, ChannelMessage, Dispatch, MessageData,
};

fn msg(action: &str, channel: &str, data: Option<MessageData>) -> ChannelMessage {
    ChannelMessage { action: action.to_string(), channel_name: channel.to_string(), data }
}

#[test]
fn hello_is_answered_with_announce() {
    let d = dispatch_inbound(Some(msg("hello", "c1", None)));
    assert_eq!(d, Dispatch::Reply(msg("announce", "c1", None)));
}

#[test]
fn web_connected_is_answered_with_announce() {
    let d = dispatch_inbound(Some(msg("web-connected", "lobby", None)));
    assert_eq!(d, Dispatch::Reply(msg("announce", "lobby", None)));
}

#[test]
fn web_disconnected_needs_no_reply() {
    assert_eq!(dispatch_inbound(Some(msg("web-disconnected", "c1", None))), Dispatch::Nothing);
}

#[test]
fn install_hands_the_code_to_the_installer() {
    let data = MessageData { install_code: "ABC".to_string(), mod_file_id: "1".to_string() };
    let d = dispatch_inbound(Some(msg("install", "c1", Some(data))));
    assert_eq!(
        d,
        Dispatch::Install { install_code: "ABC".to_string(), channel_name: "c1".to_string() }
    );
}

#[test]
fn install_without_data_is_ignored() {
    assert_eq!(dispatch_inbound(Some(msg("install", "c1", None))), Dispatch::Nothing);
}

#[test]
fn unrecognized_actions_are_ignored() {
    assert_eq!(dispatch_inbound(Some(msg("goodbye", "c1", None))), Dispatch::Nothing);
    assert_eq!(dispatch_inbound(Some(msg("", "c1", None))), Dispatch::Nothing);
}

#[test]
fn malformed_input_is_ignored_and_the_session_lives_on() {
    assert_eq!(dispatch_inbound(None), Dispatch::Nothing);
}

#[test]
fn installer_success_is_answered_with_completion() {
    let r = install_reply("c1".to_string(), true);
    assert_eq!(r, Some(msg("install-complete", "c1", None)));
}

#[test]
fn installer_failure_is_absorbed_without_reply() {
    assert_eq!(install_reply("c1".to_string(), false), None);
}

#[test]
fn replies_address_the_triggering_channel() {
    for channel in ["a", "channel-7", "x y z"] {
        match dispatch_inbound(Some(msg("hello", channel, None))) {
            Dispatch::Reply(r) => assert_eq!(r.channel_name, channel),
            other => panic!("expected a reply, got {:?}", other),
        }
        match install_reply(channel.to_string(), true) {
            Some(r) => assert_eq!(r.channel_name, channel),
            None => panic!("expected a completion reply"),
        }
    }
}
