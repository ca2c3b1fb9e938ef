use vstd::prelude::*;

verus! {

/// The command that starts the reminder server.
pub struct Start {}

} // verus!
