//! Options of a continuous run, and their validation.

use vstd::prelude::*;

verus! {

/// Options handed to a full node.
#[derive(Clone, Copy, Debug, PartialEq, Eq)]
pub struct RunOptions {
    pub authority_discovery_enabled: bool,
    /// A block number and a delay in blocks: finality voting pauses once the
    /// block is finalized, until the block at number plus delay is imported.
    pub finality_voter_pause: Option<(u32, u32)>,
}

/// The pause option was given with a number of values other than two.
#[derive(Clone, Copy, Debug, PartialEq, Eq)]
pub struct RunOptionsError {
    pub supplied: usize,
}

/// The pause that a list of values stands for: none for the empty list, a
/// pair for two values, an error for any other count.
pub open spec fn pause_of(values: Seq<u32>) -> Result<Option<(u32, u32)>, RunOptionsError> {
    if values.len() == 0 {
        Ok(None)
    } else if values.len() == 2 {
        Ok(Some((values[0], values[1])))
    } else {
        Err(RunOptionsError { supplied: values.len() as usize })
    }
}

/// The run options that the raw inputs stand for.
pub open spec fn run_options_of(authority_discovery_enabled: bool, pause: Seq<u32>) -> Result<
    RunOptions,
    RunOptionsError,
> {
    match pause_of(pause) {
        Ok(finality_voter_pause) => Ok(
            RunOptions { authority_discovery_enabled, finality_voter_pause },
        ),
        Err(e) => Err(e),
    }
}

/// Validates the values of the pause option.
pub fn parse_pause(values: &Vec<u32>) -> (result: Result<Option<(u32, u32)>, RunOptionsError>)
    ensures
        result == pause_of(values@),
{
    let supplied: usize = values.len();
    if supplied == 0 {
        Ok(None)
    } else if supplied == 2 {
        Ok(Some((values[0], values[1])))
    } else {
        Err(RunOptionsError { supplied })
    }
}

impl RunOptions {
    /// Builds the options from the raw inputs; fails exactly where the pause
    /// values are neither none nor two.
    pub fn new(authority_discovery_enabled: bool, pause: &Vec<u32>) -> (result: Result<
        RunOptions,
        RunOptionsError,
    >)
        ensures
            result == run_options_of(authority_discovery_enabled, pause@),
    {
        match parse_pause(pause) {
            Ok(finality_voter_pause) => Ok(
                RunOptions { authority_discovery_enabled, finality_voter_pause },
            ),
            Err(e) => Err(e),
        }
    }
}

/// Options are valid exactly for no pause value or two, and a valid pause
/// holds the two values in the order given.
pub proof fn lemma_pause_arity(values: Seq<u32>)
    ensures
        pause_of(values) is Ok <==> values.len() == 0 || values.len() == 2,
        pause_of(values) is Ok ==> (pause_of(values)->Ok_0 is Some <==> values.len() == 2),
        values.len() == 2 ==> pause_of(values) == Ok::<Option<(u32, u32)>, RunOptionsError>(
            Some((values[0], values[1])),
        ),
{
}

} // verus!
