//! Carrying the plugin's saved state over to a new instance.

use crate::wrapper::extensions::WrappedPluginExtensions;
use vstd::prelude::*;

verus! {

/// Whether the state of the instance that is replaced is to be saved and
/// loaded into the new one: only where both have a state extension. Where it
/// is not, the new instance starts from its defaults.
pub fn transfer_state(src: &WrappedPluginExtensions, dst: &WrappedPluginExtensions) -> (transfer:
    bool)
    ensures
        transfer == (src.state && dst.state),
{
    src.state && dst.state
}

} // verus!
