//! The output writer's status line.
//!
//! Writing the result is the one stage that does not abort on failure:
//! whatever the save call returned, the process reports a status line and
//! exits normally. Which line belongs to which outcome is decided here.

use vstd::prelude::*;

verus! {

/// The status line for a save outcome: a confirmation when the image was
/// written, a failure notice when it was not.
pub fn save_outcome_message(saved: bool) -> (r: String)
    ensures
        saved ==> r@ == "File saved"@,
        !saved ==> r@ == "Couldn't save file"@,
{
    if saved {
        "File saved".to_owned()
    } else {
        "Couldn't save file".to_owned()
    }
}

} // verus!
