//! What a reply cost.

use vstd::prelude::*;

verus! {

/// Where the cost of a reply comes from.
#[derive(Clone, Copy, Debug, PartialEq, Eq, Structural)]
pub enum CostSource {
    /// The provider named it in its reply.
    ProviderReported,
}

/// What a reply of a model used: its token counts `U`, the metadata `D` that the reply
/// carried, and its cost `C`, each of the last two where known.
#[derive(Debug, PartialEq, Eq)]
pub struct ProviderUsage<U, D, C> {
    pub model: String,
    pub usage: U,
    pub metadata: Option<D>,
    pub cost: Option<(C, CostSource)>,
}

impl<U, D, C> ProviderUsage<U, D, C> {
    /// The usage of a reply of `model`, of which only the token counts are known.
    pub fn new(model: String, usage: U) -> (total: Self)
        ensures
            total == (ProviderUsage::<U, D, C> { model, usage, metadata: None, cost: None }),
    {
        ProviderUsage { model, usage, metadata: None, cost: None }
    }

    /// The same usage at this cost.
    pub fn with_cost(self, cost: C, source: CostSource) -> (total: Self)
        ensures
            total == (ProviderUsage { cost: Some((cost, source)), ..self }),
    {
        ProviderUsage {
            model: self.model,
            usage: self.usage,
            metadata: self.metadata,
            cost: Some((cost, source)),
        }
    }
}

/// `usage` at the cost that the provider reported, or as it is where it reported none.
pub open spec fn priced<U, D, C>(usage: ProviderUsage<U, D, C>, cost: Option<C>) -> ProviderUsage<
    U,
    D,
    C,
> {
    match cost {
        Some(amount) => ProviderUsage {
            cost: Some((amount, CostSource::ProviderReported)),
            ..usage
        },
        None => usage,
    }
}

} // verus!
