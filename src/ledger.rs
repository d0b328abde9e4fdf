use vstd::prelude::*;

use crate::resource::{ResourceAmount, ResourceKind};

verus! {

/// The largest quantity a ledger entry can hold.
pub const MAX_QUANTITY: u64 = 0xffff_ffff_ffff_ffff;

/// Why a ledger operation was refused or cut short.
#[derive(Clone, Copy, Debug, PartialEq, Eq, Structural)]
pub enum LedgerError {
    /// A credit would have gone past `MAX_QUANTITY`; the entry was clamped to it.
    Overflow,
    /// A debit asked for more than the entry holds; nothing was changed.
    InsufficientResource,
}

/// An actor's store of owned resources: one quantity per resource kind.
/// Kinds never credited read as zero.
#[derive(Clone, Copy, Debug, PartialEq, Eq, Structural)]
pub struct ResourceLedger {
    pub copper_ore: u64,
    pub iron_ore: u64,
}

/// What a credit of `amount` makes of a quantity `q`: the sum, clamped to the maximum.
pub open spec fn credited(q: u64, amount: u64) -> u64 {
    if q + amount > MAX_QUANTITY {
        MAX_QUANTITY
    } else {
        (q + amount) as u64
    }
}

/// The sum of the quantities of `kind` in `amounts`.
pub open spec fn total_of(amounts: Seq<ResourceAmount>, kind: ResourceKind) -> nat
    decreases amounts.len(),
{
    if amounts.len() == 0 {
        0
    } else {
        total_of(amounts.drop_last(), kind) + if amounts.last().resource == kind {
            amounts.last().amount as nat
        } else {
            0
        }
    }
}

/// Crediting a sequence of amounts raises each kind by the total of that kind
/// in the sequence, clamped once at `MAX_QUANTITY`.
pub proof fn lemma_credit_all_balance(ledger: ResourceLedger, amounts: Seq<ResourceAmount>, kind: ResourceKind)
    ensures
        ledger.spec_credit_all(amounts).spec_balance(kind) == if ledger.spec_balance(kind) + total_of(amounts, kind) > MAX_QUANTITY {
            MAX_QUANTITY as int
        } else {
            ledger.spec_balance(kind) + total_of(amounts, kind)
        },
    decreases amounts.len(),
{
    if amounts.len() > 0 {
        lemma_credit_all_balance(ledger, amounts.drop_last(), kind);
    }
}

impl ResourceLedger {
    /// The quantity held of `kind`.
    pub open spec fn spec_balance(self, kind: ResourceKind) -> u64 {
        match kind {
            ResourceKind::CopperOre => self.copper_ore,
            ResourceKind::IronOre => self.iron_ore,
        }
    }

    /// The ledger with `kind` set to `q` and every other kind kept.
    pub open spec fn spec_with(self, kind: ResourceKind, q: u64) -> ResourceLedger {
        match kind {
            ResourceKind::CopperOre => ResourceLedger { copper_ore: q, ..self },
            ResourceKind::IronOre => ResourceLedger { iron_ore: q, ..self },
        }
    }

    /// The ledger after crediting one resource amount, clamped on overflow.
    pub open spec fn spec_credit(self, ra: ResourceAmount) -> ResourceLedger {
        self.spec_with(ra.resource, credited(self.spec_balance(ra.resource), ra.amount))
    }

    /// The ledger after crediting each amount of `amounts` in turn.
    pub open spec fn spec_credit_all(self, amounts: Seq<ResourceAmount>) -> ResourceLedger
        decreases amounts.len(),
    {
        if amounts.len() == 0 {
            self
        } else {
            self.spec_credit_all(amounts.drop_last()).spec_credit(amounts.last())
        }
    }

    /// An empty ledger: every kind at zero.
    pub fn new() -> (r: ResourceLedger)
        ensures
            forall|k: ResourceKind| r.spec_balance(k) == 0,
    {
        ResourceLedger { copper_ore: 0, iron_ore: 0 }
    }

    /// The quantity held of `kind`; zero for a kind never credited.
    pub fn balance(&self, kind: ResourceKind) -> (r: u64)
        ensures
            r == self.spec_balance(kind),
    {
        match kind {
            ResourceKind::CopperOre => self.copper_ore,
            ResourceKind::IronOre => self.iron_ore,
        }
    }

    fn set(&mut self, kind: ResourceKind, q: u64)
        ensures
            *final(self) == old(self).spec_with(kind, q),
    {
        match kind {
            ResourceKind::CopperOre => self.copper_ore = q,
            ResourceKind::IronOre => self.iron_ore = q,
        }
    }

    /// Adds `amount` to the quantity of `kind`. Where the sum would pass
    /// `MAX_QUANTITY` the entry is clamped to it and `Overflow` is returned.
    pub fn credit(&mut self, kind: ResourceKind, amount: u64) -> (r: Result<(), LedgerError>)
        ensures
            *final(self) == old(self).spec_credit(ResourceAmount { resource: kind, amount }),
            r is Err <==> old(self).spec_balance(kind) + amount > MAX_QUANTITY,
            r is Err ==> r == Err::<(), LedgerError>(LedgerError::Overflow),
    {
        let q = self.balance(kind);
        if amount > MAX_QUANTITY - q {
            self.set(kind, MAX_QUANTITY);
            Err(LedgerError::Overflow)
        } else {
            self.set(kind, q + amount);
            Ok(())
        }
    }

    /// Takes `amount` away from the quantity of `kind`. Where the ledger holds
    /// less than `amount` nothing changes and `InsufficientResource` is returned.
    pub fn debit(&mut self, kind: ResourceKind, amount: u64) -> (r: Result<(), LedgerError>)
        ensures
            r is Err <==> old(self).spec_balance(kind) < amount,
            r is Err ==> r == Err::<(), LedgerError>(LedgerError::InsufficientResource)
                && *final(self) == *old(self),
            r is Ok ==> *final(self) == old(self).spec_with(
                kind,
                (old(self).spec_balance(kind) - amount) as u64,
            ),
    {
        let q = self.balance(kind);
        if q < amount {
            Err(LedgerError::InsufficientResource)
        } else {
            self.set(kind, q - amount);
            Ok(())
        }
    }

    /// Credits each amount of `amounts` in turn, clamping any entry that would overflow.
    pub fn credit_all(&mut self, amounts: &Vec<ResourceAmount>)
        ensures
            *final(self) == old(self).spec_credit_all(amounts@),
    {
        let ghost start = *self;
        let mut i: usize = 0;
        while i < amounts.len()
            invariant
                i <= amounts@.len(),
                *self == start.spec_credit_all(amounts@.take(i as int)),
            decreases amounts@.len() - i,
        {
            let ra = amounts[i];
            let _ = self.credit(ra.resource, ra.amount);
            assert(amounts@.take(i + 1).drop_last() == amounts@.take(i as int));
            i = i + 1;
        }
        assert(amounts@.take(i as int) == amounts@);
    }
}

} // verus!
