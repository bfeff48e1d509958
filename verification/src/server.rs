//! The control channel's rules. Control requests are served while the shell
//! channel is at work; the one that is implemented is the shutdown.

use vstd::prelude::*;
use crate::content::{shutdown_content, shutdown_doc};
use crate::json::{as_bool, as_str, member};
use crate::message::{JuMessage, MessageView};
use crate::server_id::JuServerId;
use crate::shell_processor::request_type;

verus! {

/// What a control request asks the embedding program to do next.
pub enum ControlStep {
    /// Send `reply` on the control channel, signal the shell processor to
    /// stop, and end the control loop; the server's run then reports
    /// `restart`.
    Shutdown { reply: JuMessage, restart: bool },
    /// A request of a type that is not served: nothing is sent, the loop goes
    /// on.
    Unsupported { msg_type: String },
    /// A request whose header names no type: nothing is sent, the loop goes
    /// on.
    Untyped,
}

/// Whether a shutdown request asks for a restart: the boolean `restart` of
/// its content, and `false` where there is none.
pub open spec fn wants_restart(msg: MessageView) -> bool {
    match msg.content.member("restart"@).as_bool() {
        Some(b) => b,
        None => false,
    }
}

/// Serves a control request by its type. A `shutdown_request` is answered
/// with the restart wish that it carries; any other request is passed over.
pub fn control_step(jsi: &JuServerId, msg: &JuMessage) -> (r: ControlStep)
    ensures
        match r {
            ControlStep::Shutdown { reply, restart } => {
                &&& request_type(msg@) == Some("shutdown_request"@)
                &&& restart == wants_restart(msg@)
                &&& jsi.is_reply_message(reply@, msg@, shutdown_doc(restart))
            },
            ControlStep::Unsupported { msg_type } => {
                &&& request_type(msg@) == Some(msg_type@)
                &&& msg_type@ != "shutdown_request"@
            },
            ControlStep::Untyped => request_type(msg@) is None,
        },
{
    match as_str(member(&msg.header, "msg_type")) {
        Some(t) => {
            let msg_type = t.to_owned();
            if msg_type == "shutdown_request".to_owned() {
                let restart = match as_bool(member(&msg.content, "restart")) {
                    Some(b) => b,
                    None => false,
                };
                let reply = jsi.new_reply_message(msg).with_content(shutdown_content(restart));
                ControlStep::Shutdown { reply, restart }
            } else {
                ControlStep::Unsupported { msg_type }
            }
        },
        None => ControlStep::Untyped,
    }
}

} // verus!
