//! The user's settings.

use vstd::prelude::*;

verus! {

/// The version of the settings layout.
pub const CONFIG_VERSION: u64 = 1;

/// The settings of the clipboard manager.
#[derive(Clone, Debug, PartialEq, Eq, Structural)]
pub struct Config {
    /// While set, the clipboard is not observed.
    pub private_mode: bool,
}

impl Default for Config {
    /// Private mode is off until the user turns it on.
    fn default() -> (config: Config)
        ensures
            config == (Config { private_mode: false }),
    {
        Config { private_mode: false }
    }
}

} // verus!
