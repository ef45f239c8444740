//! The process-wide address format: written once, read afterwards.

use vstd::prelude::*;
use crate::variant::NetworkVariant;

verus! {

/// The address format of the process: not yet written, or written for the
/// network whose addresses it encodes.
#[derive(Clone, Copy, Debug, PartialEq, Eq, Structural)]
pub enum AddressFormatState {
    Uninitialized,
    Written(NetworkVariant),
}

/// A second write was attempted; the state holds the format of `current`.
#[derive(Clone, Copy, Debug, PartialEq, Eq, Structural)]
pub struct AlreadyWritten {
    pub current: NetworkVariant,
}

/// What a write of `variant` does to `state`.
pub open spec fn written(state: AddressFormatState, variant: NetworkVariant) -> Result<
    AddressFormatState,
    AlreadyWritten,
> {
    match state {
        AddressFormatState::Uninitialized => Ok(AddressFormatState::Written(variant)),
        AddressFormatState::Written(current) => Err(AlreadyWritten { current }),
    }
}

impl AddressFormatState {
    /// The state of a fresh process.
    pub fn new() -> (state: AddressFormatState)
        ensures
            state == AddressFormatState::Uninitialized,
    {
        AddressFormatState::Uninitialized
    }

    /// Writes the format of `variant`. Succeeds on an unwritten state only,
    /// so a format once written never changes.
    pub fn configure(self, variant: NetworkVariant) -> (result: Result<
        AddressFormatState,
        AlreadyWritten,
    >)
        ensures
            result == written(self, variant),
    {
        match self {
            AddressFormatState::Uninitialized => Ok(AddressFormatState::Written(variant)),
            AddressFormatState::Written(current) => Err(AlreadyWritten { current }),
        }
    }

    /// The variant whose format was written, if any.
    pub fn read(&self) -> (format: Option<NetworkVariant>)
        ensures
            format == match *self {
                AddressFormatState::Uninitialized => None::<NetworkVariant>,
                AddressFormatState::Written(v) => Some(v),
            },
    {
        match self {
            AddressFormatState::Uninitialized => None,
            AddressFormatState::Written(v) => Some(*v),
        }
    }
}

/// Write-once: after a first write every further write fails, whatever it
/// asks for, and reports the variant of the first.
pub proof fn lemma_write_once(first: NetworkVariant, second: NetworkVariant)
    ensures
        written(AddressFormatState::Uninitialized, first) == Ok::<
            AddressFormatState,
            AlreadyWritten,
        >(AddressFormatState::Written(first)),
        written(AddressFormatState::Written(first), second) == Err::<
            AddressFormatState,
            AlreadyWritten,
        >(AlreadyWritten { current: first }),
{
}

} // verus!
