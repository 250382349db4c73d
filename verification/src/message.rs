use vstd::prelude::*;
use vstd::string::StringExecFns;

use crate::strutil::string_is;

verus! {

broadcast use vstd::string::group_string_axioms;

/// The payload of an `install` request: the opaque install code and the id
/// of the mod file it refers to.
#[derive(Clone, Debug, PartialEq, Eq)]
pub struct MessageData {
    pub install_code: String,
    pub mod_file_id: String,
}

/// One message of the JSON control protocol exchanged over the WebSocket.
/// On the wire the keys are kebab-case: `action`, `channel-name`, `data`.
#[derive(Clone, Debug, PartialEq, Eq)]
pub struct ChannelMessage {
    pub action: String,
    pub channel_name: String,
    pub data: Option<MessageData>,
}

/// What the dispatcher asks of its caller after reading one inbound
/// message: send a reply, run the external installer, or nothing.
#[derive(Clone, Debug, PartialEq, Eq)]
pub enum Dispatch {
    /// Send this message back over the connection.
    Reply(ChannelMessage),
    /// Invoke the external installer with this install code; once it
    /// settles, hand its outcome and the channel name to [`install_reply`].
    Install { install_code: String, channel_name: String },
    /// Nothing to do; the session keeps running.
    Nothing,
}

/// The inbound actions answered with an announcement.
pub open spec fn is_greeting(action: Seq<char>) -> bool {
    action == "hello"@ || action == "web-connected"@
}

/// A correct announcement reply on the given channel.
pub open spec fn is_announce_reply(r: ChannelMessage, channel: Seq<char>) -> bool {
    r.action@ == "announce"@ && r.channel_name@ == channel && r.data is None
}

/// A correct install-completion reply on the given channel.
pub open spec fn is_install_complete_reply(r: ChannelMessage, channel: Seq<char>) -> bool {
    r.action@ == "install-complete"@ && r.channel_name@ == channel && r.data is None
}

/// Decide what one inbound text or binary payload asks for, given the
/// outcome of parsing it as a [`ChannelMessage`] (`None` when the payload
/// was not valid JSON for the schema).
///
/// Malformed payloads and unrecognized actions are ignored, so a garbled
/// message can never end the session. Greetings (`hello`, `web-connected`)
/// are answered with an `announce` on the same channel; `web-disconnected`
/// needs nothing; `install` with a payload hands the install code to the
/// caller, and without one is ignored.
pub fn dispatch_inbound(parsed: Option<ChannelMessage>) -> (d: Dispatch)
    ensures
        parsed is None ==> d == Dispatch::Nothing,
        parsed matches Some(m) ==> {
            &&& is_greeting(m.action@) ==> (d matches Dispatch::Reply(r) && is_announce_reply(
                r,
                m.channel_name@,
            ))
            &&& m.action@ == "install"@ ==> (m.data matches Some(payload) ==> (d matches
                Dispatch::Install { install_code, channel_name } && install_code@
                == payload.install_code@ && channel_name@ == m.channel_name@))
            &&& !is_greeting(m.action@) && !(m.action@ == "install"@ && m.data is Some) ==> d
                == Dispatch::Nothing
        },
{
    proof {
        // The action literals have distinct lengths, so the recognized
        // actions cannot be mistaken for one another.
        reveal_strlit("hello");
        reveal_strlit("web-connected");
        reveal_strlit("install");
        assert("hello"@.len() == 5);
        assert("web-connected"@.len() == 13);
        assert("install"@.len() == 7);
    }
    match parsed {
        None => Dispatch::Nothing,
        Some(m) => {
            if string_is(&m.action, "hello") || string_is(&m.action, "web-connected") {
                Dispatch::Reply(
                    ChannelMessage {
                        action: String::from_str("announce"),
                        channel_name: m.channel_name,
                        data: None,
                    },
                )
            } else if string_is(&m.action, "install") {
                match m.data {
                    Some(payload) => Dispatch::Install {
                        install_code: payload.install_code,
                        channel_name: m.channel_name,
                    },
                    None => Dispatch::Nothing,
                }
            } else {
                Dispatch::Nothing
            }
        },
    }
}

/// The reply owed once the external installer settles: a completion
/// message on the same channel when it succeeded, nothing when it failed.
/// Installer failures are absorbed here; they never become connection
/// errors and never reach the supervisor.
pub fn install_reply(channel_name: String, installed: bool) -> (r: Option<ChannelMessage>)
    ensures
        installed ==> (r matches Some(m) && is_install_complete_reply(m, channel_name@)),
        !installed ==> r is None,
{
    if installed {
        Some(
            ChannelMessage {
                action: String::from_str("install-complete"),
                channel_name,
                data: None,
            },
        )
    } else {
        None
    }
}

} // verus!
