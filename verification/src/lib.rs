//! The server side of the Jupyter kernel wire protocol: the multipart wire
//! codec with its message signature, the session's header rules, and the
//! decisions of the shell and control loops.

use vstd::prelude::*;

pub mod api;
pub mod con_info;
pub mod content;
pub mod digester;
pub mod error;
pub mod frames;
pub mod json;
pub mod message;
pub mod server;
pub mod server_id;
pub mod shell_processor;

pub use api::{JuHelpLink, JuKernel, JuKernelInfo};
pub use con_info::ConnectionInfo;
pub use error::{JuError, JuResult};
pub use message::JuMessage;

verus! {

/// The frame that parts the routing identities from the message proper:
/// `<IDS|MSG>`.
pub const DELIMITER: [u8; 9] = [0x3c, 0x49, 0x44, 0x53, 0x7c, 0x4d, 0x53, 0x47, 0x3e];

} // verus!
