//! An audio target that plays nothing, for running the core silently.
use vstd::prelude::*;

verus! {

pub struct FakeSpeaker {}

} // verus!
