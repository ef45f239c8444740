//! The identifier resolver: raw command-line inputs to one network variant.

use vstd::prelude::*;
use crate::variant::{Generator, NetworkVariant, OverrideFlags, forced_variant};
use crate::text::{
    has_prefix, last_component, trim_slashes, starts_with, same_text,
    last_component_of, lemma_base_name_of_plain,
};

verus! {

/// The variant whose prefix `name` begins with. The prefixes are tried in
/// the order Primary, Secondary, Tertiary, and the first match wins.
pub open spec fn prefix_variant(name: Seq<char>) -> Option<NetworkVariant> {
    if has_prefix(name, "primary"@) {
        Some(NetworkVariant::Primary)
    } else if has_prefix(name, "secondary"@) {
        Some(NetworkVariant::Secondary)
    } else if has_prefix(name, "tertiary"@) {
        Some(NetworkVariant::Tertiary)
    } else {
        None
    }
}

/// What `identifier` is an alias of: a variant and the generator built in
/// for it. `shiftNrg-dev` and `dev` are two names of one thing, and so are
/// `shiftNrg-testnet` and `local-testnet`.
pub open spec fn alias_target(identifier: Seq<char>) -> Option<(NetworkVariant, Generator)> {
    if identifier == "shiftNrg-dev"@ || identifier == "dev"@ || identifier == "tertiary-dev"@ {
        Some((NetworkVariant::Tertiary, Generator::Development))
    } else if identifier == "secondary-dev"@ {
        Some((NetworkVariant::Secondary, Generator::Development))
    } else if identifier == "shiftNrg-testnet"@ || identifier == "local-testnet"@ {
        Some((NetworkVariant::Secondary, Generator::LocalTestnet))
    } else if identifier == "shiftNrg"@ {
        Some((NetworkVariant::Primary, Generator::Staging))
    } else {
        None
    }
}

/// The variant that `identifier` is an alias of.
pub open spec fn alias_variant(identifier: Seq<char>) -> Option<NetworkVariant> {
    match alias_target(identifier) {
        Some((variant, _)) => Some(variant),
        None => None,
    }
}

/// What the identifier alone selects, flags aside: for an empty identifier
/// the prefix of the executable's name, else the prefix of the path's last
/// non-empty component, else the alias.
pub open spec fn named_variant(identifier: Seq<char>, exec_name: Seq<char>) -> Option<
    NetworkVariant,
> {
    if identifier.len() == 0 {
        prefix_variant(exec_name)
    } else if prefix_variant(last_component(identifier)) is Some {
        prefix_variant(last_component(identifier))
    } else {
        alias_variant(identifier)
    }
}

/// The resolved variant: a set override flag first, then what the
/// identifier selects, then Primary.
pub open spec fn resolved_variant(
    identifier: Seq<char>,
    flags: OverrideFlags,
    exec_name: Seq<char>,
) -> NetworkVariant {
    match forced_variant(flags) {
        Some(v) => v,
        None => match named_variant(identifier, exec_name) {
            Some(v) => v,
            None => NetworkVariant::Primary,
        },
    }
}

/// The variant whose prefix `name` begins with.
pub fn variant_by_prefix(name: &str) -> (found: Option<NetworkVariant>)
    ensures
        found == prefix_variant(name@),
{
    if starts_with(name, "primary") {
        Some(NetworkVariant::Primary)
    } else if starts_with(name, "secondary") {
        Some(NetworkVariant::Secondary)
    } else if starts_with(name, "tertiary") {
        Some(NetworkVariant::Tertiary)
    } else {
        None
    }
}

/// What `identifier` is an alias of.
pub fn alias_of(identifier: &str) -> (found: Option<(NetworkVariant, Generator)>)
    ensures
        found == alias_target(identifier@),
{
    if same_text(identifier, "shiftNrg-dev") || same_text(identifier, "dev") || same_text(
        identifier,
        "tertiary-dev",
    ) {
        Some((NetworkVariant::Tertiary, Generator::Development))
    } else if same_text(identifier, "secondary-dev") {
        Some((NetworkVariant::Secondary, Generator::Development))
    } else if same_text(identifier, "shiftNrg-testnet") || same_text(identifier, "local-testnet") {
        Some((NetworkVariant::Secondary, Generator::LocalTestnet))
    } else if same_text(identifier, "shiftNrg") {
        Some((NetworkVariant::Primary, Generator::Staging))
    } else {
        None
    }
}

/// The variant that `identifier` is an alias of.
pub fn variant_by_alias(identifier: &str) -> (found: Option<NetworkVariant>)
    ensures
        found == alias_variant(identifier@),
{
    match alias_of(identifier) {
        Some((variant, _)) => Some(variant),
        None => None,
    }
}

/// Resolves the raw inputs to one network variant. Total: every input has
/// a variant, and the same inputs always have the same one.
pub fn resolve(identifier: &str, flags: OverrideFlags, exec_name: &str) -> (variant: NetworkVariant)
    ensures
        variant == resolved_variant(identifier@, flags, exec_name@),
{
    match flags.forced() {
        Some(v) => v,
        None => {
            let named = if identifier.unicode_len() == 0 {
                variant_by_prefix(exec_name)
            } else {
                match variant_by_prefix(last_component_of(identifier)) {
                    Some(v) => Some(v),
                    None => variant_by_alias(identifier),
                }
            };
            match named {
                Some(v) => v,
                None => NetworkVariant::Primary,
            }
        },
    }
}

/// Determinism: the resolved variant is a function of the identifier, the
/// flags and the executable's name, and of nothing else. Two calls of
/// `resolve` on the same three inputs therefore return the same variant.
pub proof fn lemma_resolution_deterministic(
    identifier_a: Seq<char>,
    flags_a: OverrideFlags,
    exec_name_a: Seq<char>,
    identifier_b: Seq<char>,
    flags_b: OverrideFlags,
    exec_name_b: Seq<char>,
)
    requires
        identifier_a =~= identifier_b,
        flags_a == flags_b,
        exec_name_a =~= exec_name_b,
    ensures
        resolved_variant(identifier_a, flags_a, exec_name_a) == resolved_variant(
            identifier_b,
            flags_b,
            exec_name_b,
        ),
{
}

/// Override precedence: a set flag decides, whatever the identifier and
/// the executable's name are.
pub proof fn lemma_override_precedence(
    identifier: Seq<char>,
    flags: OverrideFlags,
    exec_name: Seq<char>,
)
    ensures
        forced_variant(flags) matches Some(v) ==> resolved_variant(identifier, flags, exec_name)
            == v,
        flags.primary ==> resolved_variant(identifier, flags, exec_name)
            == NetworkVariant::Primary,
        !flags.primary && flags.secondary ==> resolved_variant(identifier, flags, exec_name)
            == NetworkVariant::Secondary,
        !flags.primary && !flags.secondary && flags.tertiary ==> resolved_variant(
            identifier,
            flags,
            exec_name,
        ) == NetworkVariant::Tertiary,
{
}

/// Fallback: without a flag, an empty identifier resolves by the prefix of
/// the executable's name, and to Primary where that name has none of the
/// prefixes.
pub proof fn lemma_empty_identifier(flags: OverrideFlags, exec_name: Seq<char>)
    requires
        forced_variant(flags) is None,
    ensures
        prefix_variant(exec_name) matches Some(v) ==> resolved_variant(
            Seq::<char>::empty(),
            flags,
            exec_name,
        ) == v,
        prefix_variant(exec_name) is None ==> resolved_variant(
            Seq::<char>::empty(),
            flags,
            exec_name,
        ) == NetworkVariant::Primary,
{
}

/// Without a flag, a path resolves by the prefix of its last non-empty
/// component alone: the directories before it, a `/` at its end and the
/// executable's name play no part.
pub proof fn lemma_path_prefix(identifier: Seq<char>, flags: OverrideFlags, exec_name: Seq<char>)
    requires
        forced_variant(flags) is None,
        identifier.len() > 0,
        prefix_variant(last_component(identifier)) is Some,
    ensures
        Some(resolved_variant(identifier, flags, exec_name)) == prefix_variant(
            last_component(identifier),
        ),
{
}

/// An alias resolves to its variant: no alias begins with the prefix of
/// another variant.
pub proof fn lemma_alias_resolves(identifier: Seq<char>, flags: OverrideFlags, exec_name: Seq<char>)
    requires
        forced_variant(flags) is None,
        alias_variant(identifier) is Some,
    ensures
        Some(resolved_variant(identifier, flags, exec_name)) == alias_variant(identifier),
{
    lemma_alias_is_plain(identifier);
}

/// An alias is its own last component, and begins with none of the
/// variant prefixes but the one of its own variant.
pub proof fn lemma_alias_is_plain(identifier: Seq<char>)
    requires
        alias_target(identifier) is Some,
    ensures
        last_component(identifier) == identifier,
        identifier.len() > 0,
        prefix_variant(identifier) matches Some(v) ==> alias_variant(identifier) == Some(v),
{
    reveal_strlit("primary");
    reveal_strlit("secondary");
    reveal_strlit("tertiary");
    reveal_strlit("shiftNrg-dev");
    reveal_strlit("shiftNrg-testnet");
    reveal_strlit("shiftNrg");
    reveal_strlit("secondary-dev");
    reveal_strlit("local-testnet");
    reveal_strlit("tertiary-dev");
    reveal_strlit("dev");
    assert(identifier.last() != '/');
    assert(trim_slashes(identifier) == identifier);
    lemma_base_name_of_plain(identifier);
    if has_prefix(identifier, "primary"@) {
        assert(identifier[0] == 'p');
    }
    if has_prefix(identifier, "secondary"@) {
        assert(identifier[0] == 's');
        assert(identifier[1] == 'e');
    }
    if has_prefix(identifier, "tertiary"@) {
        assert(identifier[0] == 't');
    }
}

/// The two names of each built-in specification resolve alike: whatever
/// the flags and the executable's name are, `shiftNrg-dev` resolves as `dev`
/// does, and `shiftNrg-testnet` as `local-testnet`.
pub proof fn lemma_alias_names_agree(flags: OverrideFlags, exec_name: Seq<char>)
    ensures
        alias_target("shiftNrg-dev"@) == alias_target("dev"@),
        alias_target("dev"@) == Some((NetworkVariant::Tertiary, Generator::Development)),
        alias_target("shiftNrg-testnet"@) == alias_target("local-testnet"@),
        alias_target("local-testnet"@) == Some(
            (NetworkVariant::Secondary, Generator::LocalTestnet),
        ),
        alias_target("shiftNrg"@) == Some((NetworkVariant::Primary, Generator::Staging)),
        resolved_variant("shiftNrg-dev"@, flags, exec_name) == resolved_variant(
            "dev"@,
            flags,
            exec_name,
        ),
        resolved_variant("shiftNrg-testnet"@, flags, exec_name) == resolved_variant(
            "local-testnet"@,
            flags,
            exec_name,
        ),
{
    reveal_strlit("shiftNrg-dev");
    reveal_strlit("shiftNrg-testnet");
    reveal_strlit("shiftNrg");
    reveal_strlit("secondary-dev");
    reveal_strlit("local-testnet");
    reveal_strlit("tertiary-dev");
    reveal_strlit("dev");
    assert("shiftNrg-testnet"@.len() != "shiftNrg-dev"@.len());
    assert("shiftNrg-testnet"@.len() != "secondary-dev"@.len());
    assert("local-testnet"@[0] != "secondary-dev"@[0]);
    assert("local-testnet"@[0] != "shiftNrg-dev"@[0]);
    assert("shiftNrg"@.len() != "shiftNrg-dev"@.len());
    assert("shiftNrg"@.len() != "dev"@.len());
    assert("shiftNrg"@.len() != "tertiary-dev"@.len());
    assert("shiftNrg"@.len() != "secondary-dev"@.len());
    assert("shiftNrg"@.len() != "shiftNrg-testnet"@.len());
    assert("shiftNrg"@.len() != "local-testnet"@.len());
    lemma_alias_is_plain("shiftNrg-dev"@);
    lemma_alias_is_plain("dev"@);
    lemma_alias_is_plain("shiftNrg-testnet"@);
    lemma_alias_is_plain("local-testnet"@);
}

} // verus!
