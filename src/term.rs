//! Terminal input for the emulated machine.
use vstd::prelude::*;

verus! {

/// A key typed at the host terminal, if any; this build has no terminal, so
/// there never is one.
pub fn get_keyboard_input(_block: bool, _echo: bool) -> (r: Option<u8>)
    ensures
        r is None,
{
    None
}

} // verus!
