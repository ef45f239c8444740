//! The binding table: which runtime API and which executor belong to each
//! network variant.

use vstd::prelude::*;
use crate::variant::NetworkVariant;

verus! {

/// Tag of a runtime API, one per network.
#[derive(Clone, Copy, Debug, PartialEq, Eq, Structural)]
pub enum RuntimeApi {
    Primary,
    Secondary,
    Tertiary,
}

/// Tag of a native executor, one per network.
#[derive(Clone, Copy, Debug, PartialEq, Eq, Structural)]
pub enum Executor {
    Primary,
    Secondary,
    Tertiary,
}

/// A runtime API paired with an executor.
#[derive(Clone, Copy, Debug, PartialEq, Eq, Structural)]
pub struct RuntimeBinding {
    pub runtime_api: RuntimeApi,
    pub executor: Executor,
}

/// The binding of each variant. The match has no fallback arm: a variant
/// without a binding does not compile.
pub open spec fn binding_of(variant: NetworkVariant) -> RuntimeBinding {
    match variant {
        NetworkVariant::Primary => RuntimeBinding {
            runtime_api: RuntimeApi::Primary,
            executor: Executor::Primary,
        },
        NetworkVariant::Secondary => RuntimeBinding {
            runtime_api: RuntimeApi::Secondary,
            executor: Executor::Secondary,
        },
        NetworkVariant::Tertiary => RuntimeBinding {
            runtime_api: RuntimeApi::Tertiary,
            executor: Executor::Tertiary,
        },
    }
}

/// The variant that a pairing belongs to; `None` for a pairing that mixes
/// two networks.
pub open spec fn bound_variant(binding: RuntimeBinding) -> Option<NetworkVariant> {
    match (binding.runtime_api, binding.executor) {
        (RuntimeApi::Primary, Executor::Primary) => Some(NetworkVariant::Primary),
        (RuntimeApi::Secondary, Executor::Secondary) => Some(NetworkVariant::Secondary),
        (RuntimeApi::Tertiary, Executor::Tertiary) => Some(NetworkVariant::Tertiary),
        _ => None,
    }
}

/// The binding of `variant`.
pub fn binding_for(variant: NetworkVariant) -> (binding: RuntimeBinding)
    ensures
        binding == binding_of(variant),
        bound_variant(binding) == Some(variant),
{
    match variant {
        NetworkVariant::Primary => RuntimeBinding {
            runtime_api: RuntimeApi::Primary,
            executor: Executor::Primary,
        },
        NetworkVariant::Secondary => RuntimeBinding {
            runtime_api: RuntimeApi::Secondary,
            executor: Executor::Secondary,
        },
        NetworkVariant::Tertiary => RuntimeBinding {
            runtime_api: RuntimeApi::Tertiary,
            executor: Executor::Tertiary,
        },
    }
}

impl RuntimeBinding {
    /// The variant that this pairing belongs to, if it is one of the table.
    pub fn variant(&self) -> (variant: Option<NetworkVariant>)
        ensures
            variant == bound_variant(*self),
    {
        match (self.runtime_api, self.executor) {
            (RuntimeApi::Primary, Executor::Primary) => Some(NetworkVariant::Primary),
            (RuntimeApi::Secondary, Executor::Secondary) => Some(NetworkVariant::Secondary),
            (RuntimeApi::Tertiary, Executor::Tertiary) => Some(NetworkVariant::Tertiary),
            _ => None,
        }
    }
}

/// The table is total and one to one: every variant has a binding, that
/// binding leads back to the variant, and a pairing that belongs to a
/// variant is that variant's binding.
pub proof fn lemma_binding_table(variant: NetworkVariant, binding: RuntimeBinding)
    ensures
        bound_variant(binding_of(variant)) == Some(variant),
        bound_variant(binding) == Some(variant) <==> binding == binding_of(variant),
{
}

/// Two variants never share a binding.
pub proof fn lemma_binding_distinct(a: NetworkVariant, b: NetworkVariant)
    ensures
        binding_of(a) == binding_of(b) <==> a == b,
{
}

} // verus!
