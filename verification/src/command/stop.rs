use vstd::prelude::*;

verus! {

/// The command that stops the reminder server.
pub struct Stop {}

} // verus!
