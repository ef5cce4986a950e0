use vstd::prelude::*;

verus! {

/// What a collaborator hands back after performing an action.
///
/// Failures carry the collaborator's own error code.
pub enum Event {
    /// The command id of the pending mailbox transaction, if one is pending.
    Mailbox(Option<u32>),
    /// Bytes produced by the action: a payload, random data, a digest or data
    /// read through DMA.
    Bytes(Result<Vec<u8>, u32>),
    /// The outcome of a signature verification: `true` when it verified.
    Verified(Result<bool, u32>),
    /// Completion of an action that produces no value.
    Done(Result<(), u32>),
}

/// Device lifecycle state, read from fuses.
#[derive(Clone, Copy, Debug, PartialEq, Eq, Structural)]
pub enum Lifecycle {
    Unprovisioned,
    Manufacturing,
    Reserved2,
    Production,
}

} // verus!
