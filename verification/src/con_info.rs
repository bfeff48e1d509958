//! The connection descriptor that the embedding process supplies.

use vstd::prelude::*;

verus! {

/// Where the five channels are bound, and how messages are signed. It is read
/// once when a server starts and never changed.
#[derive(Debug, Clone)]
pub struct ConnectionInfo {
    pub kernel_name: String,
    pub ip: String,
    pub control_port: u16,
    pub shell_port: u16,
    pub stdin_port: u16,
    pub hb_port: u16,
    pub iopub_port: u16,
    pub key: String,
    pub transport: String,
    pub signature_scheme: String,
}

} // verus!
