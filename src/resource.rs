use vstd::prelude::*;

verus! {

/// The closed set of resource kinds that recipes consume and produce.
#[derive(Clone, Copy, Debug, PartialEq, Eq, Structural)]
pub enum ResourceKind {
    CopperOre,
    IronOre,
}

/// A kind of resource together with a quantity of it.
#[derive(Clone, Copy, Debug, PartialEq, Eq, Structural)]
pub struct ResourceAmount {
    pub resource: ResourceKind,
    pub amount: u64,
}

impl ResourceAmount {
    pub fn new(resource: ResourceKind, amount: u64) -> (r: ResourceAmount)
        ensures
            r.resource == resource,
            r.amount == amount,
    {
        ResourceAmount { resource, amount }
    }
}

} // verus!
