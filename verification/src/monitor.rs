use vstd::prelude::*;

verus! {

/// The monitor: collects information off the main thread.
#[derive(Debug, Clone, Copy)]
pub struct MonitorActor;

/// The monitor's state.
#[derive(Debug, Clone, Copy)]
pub struct MonitorState {}

} // verus!
