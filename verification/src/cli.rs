//! The parsed command line, as plain values.

use vstd::prelude::*;
use crate::variant::OverrideFlags;
use crate::dispatcher::NodeRole;

verus! {

/// What every maintenance command carries for resolution: its own chain
/// identifier or path, empty where none was given.
#[derive(Clone, Debug, PartialEq, Eq)]
pub struct SharedParams {
    pub chain: String,
}

/// The one-shot commands.
#[derive(Clone, Debug, PartialEq, Eq)]
pub enum Subcommand {
    /// Build a chain specification.
    BuildSpec(SharedParams),
    /// Validate blocks.
    CheckBlock(SharedParams),
    /// Export blocks.
    ExportBlocks(SharedParams),
    /// Export the state of a given block into a chain specification.
    ExportState(SharedParams),
    /// Import blocks.
    ImportBlocks(SharedParams),
    /// Remove the whole chain.
    PurgeChain(SharedParams),
    /// Revert the chain to a previous state.
    Revert(SharedParams),
    /// Hidden: re-entry into a sandboxed validation worker.
    ValidationWorker(ValidationWorkerCommand),
}

/// The argument of the validation worker: an identifier of shared memory.
#[derive(Clone, Debug, PartialEq, Eq)]
pub struct ValidationWorkerCommand {
    pub mem_id: String,
}

/// The options of a continuous run.
#[allow(non_snake_case)]
#[derive(Clone, Debug, PartialEq, Eq)]
pub struct RunCmd {
    /// The chain identifier or path, empty where none was given.
    pub chain: String,
    /// Run as a light client.
    pub light: bool,
    /// Force the primary network, ShiftNrg itself.
    pub force_shiftNrg: bool,
    /// Force the secondary network.
    pub force_secondary: bool,
    /// Force the tertiary network.
    pub force_tertiary: bool,
    /// Enable the authority discovery module.
    pub authority_discovery_enabled: bool,
    /// A scheduled pause of finality voting: a block number and a delay in
    /// blocks, or nothing.
    pub grandpa_pause: Vec<u32>,
}

/// The whole command line.
#[derive(Clone, Debug, PartialEq, Eq)]
pub struct Cli {
    pub subcommand: Option<Subcommand>,
    pub run: RunCmd,
}

impl RunCmd {
    /// The override flags, one per variant.
    pub open spec fn spec_flags(&self) -> OverrideFlags {
        OverrideFlags {
            primary: self.force_shiftNrg,
            secondary: self.force_secondary,
            tertiary: self.force_tertiary,
        }
    }

    /// The role asked for.
    pub open spec fn spec_role(&self) -> NodeRole {
        if self.light {
            NodeRole::Light
        } else {
            NodeRole::Full
        }
    }

    /// The override flags, one per variant.
    pub fn flags(&self) -> (flags: OverrideFlags)
        ensures
            flags == self.spec_flags(),
    {
        OverrideFlags {
            primary: self.force_shiftNrg,
            secondary: self.force_secondary,
            tertiary: self.force_tertiary,
        }
    }

    /// The role asked for.
    pub fn role(&self) -> (role: NodeRole)
        ensures
            role == self.spec_role(),
    {
        if self.light {
            NodeRole::Light
        } else {
            NodeRole::Full
        }
    }
}

} // verus!
