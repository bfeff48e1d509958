//! What the server asks of the kernel that it serves.

use vstd::prelude::*;

verus! {

/// The kernel behind the server. Evaluation itself is asynchronous and is
/// driven by the embedding program; the server's rules take its result as a
/// value.
pub trait JuKernel {
    /// What the kernel says of itself.
    fn kernel_info(&self) -> JuKernelInfo;
}

/// A kernel's description of itself and of its language.
pub struct JuKernelInfo {
    pub name: String,
    pub version: String,
    pub mimetype: String,
    pub file_extension: String,
    pub banner: String,
    pub help_links: Vec<JuHelpLink>,
}

/// A link that a front end offers in its help menu.
pub struct JuHelpLink {
    pub text: String,
    pub url: String,
}

} // verus!
