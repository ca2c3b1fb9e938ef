use vstd::prelude::*;

verus! {

/// The command that shows the help text.
pub struct Help {}

} // verus!
