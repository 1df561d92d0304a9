//! The error a plugin reports when it is registered but switched off.
use vstd::prelude::*;

verus! {

/// The plugin was registered but disabled.
#[derive(Clone, Copy, Debug)]
pub struct PluginDisabledError;

impl PluginDisabledError {
    /// The sentence this error is shown as.
    pub fn message(&self) -> (r: &'static str)
        ensures
            r@ == "plugin registered, but explicitly disabled"@,
    {
        "plugin registered, but explicitly disabled"
    }
}

} // verus!
