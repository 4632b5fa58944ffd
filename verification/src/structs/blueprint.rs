use vstd::prelude::*;

verus! {

/// How a server's container is made: its image and its commands.
#[derive(Clone, Debug, PartialEq, Eq)]
pub struct Blueprint {
    /// Docker image URL.
    pub image_url: String,
    pub install_script: Option<Vec<String>>,
    /// Command that starts the main process.
    pub start_command: Option<Vec<String>>,
    /// Command sent to stdin to stop the main process.
    pub stop_command: Option<Vec<String>>,
    pub use_shell: bool,
}

} // verus!
