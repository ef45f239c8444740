//! The networks a node can join, the flags that force one of them, and the
//! built-in generators of chain specifications.

use vstd::prelude::*;

verus! {

/// One of the networks the node can join. Exactly one is live per process.
#[derive(Clone, Copy, Debug, PartialEq, Eq, Structural)]
pub enum NetworkVariant {
    Primary,
    Secondary,
    Tertiary,
}

/// A built-in generator of a chain specification.
#[derive(Clone, Copy, Debug, PartialEq, Eq, Structural)]
pub enum Generator {
    /// A single-node development chain.
    Development,
    /// A local test network.
    LocalTestnet,
    /// The staging network.
    Staging,
}

/// One override flag per network variant.
#[derive(Clone, Copy, Debug, PartialEq, Eq, Structural)]
pub struct OverrideFlags {
    pub primary: bool,
    pub secondary: bool,
    pub tertiary: bool,
}

/// The variant that the flags force, if any. Where several flags are set,
/// the first in the order Primary, Secondary, Tertiary wins.
pub open spec fn forced_variant(flags: OverrideFlags) -> Option<NetworkVariant> {
    if flags.primary {
        Some(NetworkVariant::Primary)
    } else if flags.secondary {
        Some(NetworkVariant::Secondary)
    } else if flags.tertiary {
        Some(NetworkVariant::Tertiary)
    } else {
        None
    }
}

impl OverrideFlags {
    /// No flag set.
    pub fn none() -> (flags: OverrideFlags)
        ensures
            flags == (OverrideFlags { primary: false, secondary: false, tertiary: false }),
            forced_variant(flags) is None,
    {
        OverrideFlags { primary: false, secondary: false, tertiary: false }
    }

    /// The variant that these flags force, if any.
    pub fn forced(&self) -> (forced: Option<NetworkVariant>)
        ensures
            forced == forced_variant(*self),
    {
        if self.primary {
            Some(NetworkVariant::Primary)
        } else if self.secondary {
            Some(NetworkVariant::Secondary)
        } else if self.tertiary {
            Some(NetworkVariant::Tertiary)
        } else {
            None
        }
    }
}

} // verus!
