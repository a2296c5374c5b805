use vstd::prelude::*;

verus! {

/// Reads now-playing records from the Windows media session.
#[derive(Debug, Default)]
pub struct WindowsParser {}

} // verus!
