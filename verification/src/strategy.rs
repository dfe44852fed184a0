//! The tagging strategy for unions, and its resolution from configuration.

use vstd::prelude::*;

verus! {

/// How a union's active variant is signalled in its JSON encoding.
#[derive(Debug, PartialEq, Eq)]
pub enum TagStrategy {
    /// No in-band discriminant; only legal for unit-variant unions.
    External,
    /// The discriminant is embedded as a property of the given name.
    Internal(String),
}

/// The mathematical value of a [`TagStrategy`].
pub enum TagStrategyV {
    External,
    Internal(Seq<char>),
}

impl View for TagStrategy {
    type V = TagStrategyV;

    open spec fn view(&self) -> TagStrategyV {
        match *self {
            TagStrategy::External => TagStrategyV::External,
            TagStrategy::Internal(tag) => TagStrategyV::Internal(tag@),
        }
    }
}

/// The strategy that a type's configuration calls for: `External` unless the
/// configuration names a tag.
pub open spec fn spec_resolve_strategy(config: Option<String>) -> TagStrategyV {
    match config {
        Option::None => TagStrategyV::External,
        Option::Some(tag) => TagStrategyV::Internal(tag@),
    }
}

/// Resolves a type's declared tagging configuration to a strategy.
///
/// The configuration is taken as already parsed by the front-end: `None`
/// when no tag was configured, `Some(tag)` when one was. Legality of the
/// strategy against the type's shape is enforced during synthesis, not here.
pub fn resolve_strategy(config: Option<String>) -> (strategy: TagStrategy)
    ensures
        strategy@ == spec_resolve_strategy(config),
{
    match config {
        Option::None => TagStrategy::External,
        Option::Some(tag) => TagStrategy::Internal(tag),
    }
}

} // verus!
