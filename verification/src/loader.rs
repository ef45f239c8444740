//! The chain specification loader: where a specification comes from, and
//! what a finished load yields.

use vstd::prelude::*;
use vstd::string::StrSliceExecFns;
use crate::variant::{Generator, NetworkVariant};
use crate::resolver::{alias_target, alias_of};

verus! {

/// Where the chain specification comes from.
#[derive(Clone, Copy, Debug, PartialEq, Eq, Structural)]
pub enum SpecSource {
    /// A built-in generator; nothing is read.
    BuiltIn(Generator),
    /// The file that the identifier names.
    File,
}

/// What the loader is to do: the source, and the variant whose generator
/// or parser is used.
#[derive(Clone, Copy, Debug, PartialEq, Eq, Structural)]
pub struct SpecPlan {
    pub variant: NetworkVariant,
    pub source: SpecSource,
}

/// The contents of a chain specification, as generated or parsed.
#[derive(Clone, Debug, PartialEq, Eq)]
pub struct SpecDocument {
    pub name: String,
    pub protocol_id: String,
    pub boot_nodes: Vec<String>,
    pub genesis: Vec<u8>,
}

/// A loaded chain specification. Its fields are set once, by the loader.
#[derive(Clone, Debug, PartialEq, Eq)]
pub struct ChainSpecification {
    variant: NetworkVariant,
    document: SpecDocument,
}

/// The file could not be read or its contents are malformed.
#[derive(Clone, Debug, PartialEq, Eq)]
pub struct SpecLoadError {
    pub message: String,
}

/// The generator used where no identifier names one: the staging network
/// for Primary, the local test network for Secondary, the development
/// chain for Tertiary.
pub open spec fn default_generator(variant: NetworkVariant) -> Generator {
    match variant {
        NetworkVariant::Primary => Generator::Staging,
        NetworkVariant::Secondary => Generator::LocalTestnet,
        NetworkVariant::Tertiary => Generator::Development,
    }
}

/// The source for an identifier: for the empty identifier the default
/// generator of the resolved variant, for an alias the generator that the
/// alias names, a file for anything else.
pub open spec fn source_of(identifier: Seq<char>, variant: NetworkVariant) -> SpecSource {
    if identifier.len() == 0 {
        SpecSource::BuiltIn(default_generator(variant))
    } else {
        match alias_target(identifier) {
            Some((_, generator)) => SpecSource::BuiltIn(generator),
            None => SpecSource::File,
        }
    }
}

/// The source for `identifier`, where `variant` is the resolved variant.
pub fn choose_source(identifier: &str, variant: NetworkVariant) -> (source: SpecSource)
    ensures
        source == source_of(identifier@, variant),
{
    if identifier.unicode_len() == 0 {
        match variant {
            NetworkVariant::Primary => SpecSource::BuiltIn(Generator::Staging),
            NetworkVariant::Secondary => SpecSource::BuiltIn(Generator::LocalTestnet),
            NetworkVariant::Tertiary => SpecSource::BuiltIn(Generator::Development),
        }
    } else {
        match alias_of(identifier) {
            Some((_, generator)) => SpecSource::BuiltIn(generator),
            None => SpecSource::File,
        }
    }
}

impl ChainSpecification {
    /// The variant that the specification was generated or parsed for.
    pub closed spec fn spec_variant(&self) -> NetworkVariant {
        self.variant
    }

    /// The contents.
    pub closed spec fn spec_document(&self) -> SpecDocument {
        self.document
    }

    /// The variant that the specification was generated or parsed for.
    pub fn variant(&self) -> (variant: NetworkVariant)
        ensures
            variant == self.spec_variant(),
    {
        self.variant
    }

    /// The contents.
    pub fn document(&self) -> (document: &SpecDocument)
        ensures
            *document == self.spec_document(),
    {
        &self.document
    }
}

/// Finishes a load. A generated or parsed document becomes the
/// specification of the planned variant: the variant is taken from the
/// plan, never from the contents. A failed read or parse becomes the error,
/// with its message.
pub fn complete_load(plan: SpecPlan, outcome: Result<SpecDocument, String>) -> (result: Result<
    ChainSpecification,
    SpecLoadError,
>)
    ensures
        match outcome {
            Ok(document) => result is Ok && result->Ok_0.spec_variant() == plan.variant
                && result->Ok_0.spec_document() == document,
            Err(message) => result == Err::<ChainSpecification, SpecLoadError>(
                SpecLoadError { message },
            ),
        },
{
    match outcome {
        Ok(document) => Ok(ChainSpecification { variant: plan.variant, document }),
        Err(message) => Err(SpecLoadError { message }),
    }
}

} // verus!
