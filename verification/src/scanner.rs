//! What starting a scanner decides.
//!
//! Starting takes outside work between two decisions: the caller first reports whether
//! the scanner runs already, and, where it asks for them, how many adapters there are.

use vstd::prelude::*;

verus! {

/// An outcome handed to `start_step`.
#[derive(Clone, Copy, Debug, PartialEq, Eq, Structural)]
pub enum StartInput {
    /// Whether the scanner is running already.
    Active(bool),
    /// How many Bluetooth adapters were found.
    Adapters(usize),
}

/// What `start_step` asks the caller to do.
#[derive(Clone, Copy, Debug, PartialEq, Eq, Structural)]
pub enum StartAction {
    /// The scanner runs already: start succeeds and changes nothing.
    KeepRunning,
    /// Open a Bluetooth session and list its adapters.
    ListAdapters,
    /// There is no adapter at the configured index: start fails (device not found).
    NoSuchAdapter,
    /// Start scanning with the adapter at this index.
    UseAdapter(usize),
}

/// What starting does next, given the outcome and the configured adapter index.
pub open spec fn spec_start_step(input: StartInput, adapter_index: usize) -> StartAction {
    match input {
        StartInput::Active(true) => StartAction::KeepRunning,
        StartInput::Active(false) => StartAction::ListAdapters,
        StartInput::Adapters(count) => if adapter_index >= count {
            StartAction::NoSuchAdapter
        } else {
            StartAction::UseAdapter(adapter_index)
        },
    }
}

/// Decide how starting goes on: a running scanner is left as it is; otherwise the
/// adapters are listed, and the one at the configured index is used, where there is one.
pub fn start_step(input: StartInput, adapter_index: usize) -> (r: StartAction)
    ensures
        r == spec_start_step(input, adapter_index),
        input == StartInput::Active(true) ==> r == StartAction::KeepRunning,
        input == StartInput::Active(false) ==> r == StartAction::ListAdapters,
        input matches StartInput::Adapters(count) ==> (adapter_index < count ==> r
            == StartAction::UseAdapter(adapter_index)),
        input matches StartInput::Adapters(count) ==> (adapter_index >= count ==> r
            == StartAction::NoSuchAdapter),
{
    match input {
        StartInput::Active(active) => if active {
            StartAction::KeepRunning
        } else {
            StartAction::ListAdapters
        },
        StartInput::Adapters(count) => if adapter_index >= count {
            StartAction::NoSuchAdapter
        } else {
            StartAction::UseAdapter(adapter_index)
        },
    }
}

/// Every adapter that exists can be used: the configured index is used exactly when it is
/// below the number of adapters, and refused exactly when it is not; a running scanner is
/// kept, a stopped one lists its adapters.
pub proof fn law_start(count: usize, adapter_index: usize)
    ensures
        adapter_index < count <==> spec_start_step(StartInput::Adapters(count), adapter_index)
            == StartAction::UseAdapter(adapter_index),
        adapter_index >= count <==> spec_start_step(StartInput::Adapters(count), adapter_index)
            == StartAction::NoSuchAdapter,
        spec_start_step(StartInput::Active(true), adapter_index) == StartAction::KeepRunning,
        spec_start_step(StartInput::Active(false), adapter_index) == StartAction::ListAdapters,
{
}

/// A scan only ever uses an adapter that exists, the one configured; a running scanner is
/// never started a second time.
pub proof fn lemma_start_uses_configured_adapter(input: StartInput, adapter_index: usize)
    ensures
        spec_start_step(input, adapter_index) matches StartAction::UseAdapter(i) ==> i
            == adapter_index,
        spec_start_step(input, adapter_index) is UseAdapter ==> (input matches StartInput::Adapters(
            count,
        ) ==> adapter_index < count) && input is Adapters,
        input == StartInput::Active(true) ==> spec_start_step(input, adapter_index)
            == StartAction::KeepRunning,
{
}

} // verus!
