use vstd::prelude::*;

use crate::consts::{BASE_RESOURCE_AMOUNT, BASE_RESOURCE_PRODUCTION};
use crate::decimal::{decimal, push_decimal};

verus! {

/// The closed set of resource kinds a player accumulates.
#[derive(PartialEq, Eq, Structural, Hash, Copy, Clone, Debug)]
pub enum ResourceType {
    Tools,
    Magic,
    Soldiers,
}

/// One player's stock of one resource kind.
///
/// `amount` may be negative: this layer enforces no floor. It changes only
/// through [`Resource::change_amount`]; `production` is the standing delta that
/// [`Resource::produce`] applies each tick.
#[derive(Clone, Copy, Debug)]
pub struct Resource {
    pub amount: i32,
    pub production: i32,
}

/// True when `x` can be held in an `i32`.
pub open spec fn fits_i32(x: int) -> bool {
    i32::MIN <= x <= i32::MAX
}

impl Resource {
    /// True of a ledger that holds the base amount and the base production.
    pub open spec fn is_fresh(self) -> bool {
        self.amount == BASE_RESOURCE_AMOUNT && self.production == BASE_RESOURCE_PRODUCTION
    }

    /// The text of the ledger: the amount, a comma, and the production in
    /// parentheses, as in `15,(5)`.
    pub open spec fn text(self) -> Seq<char> {
        decimal(self.amount as int) + seq![',', '('] + decimal(self.production as int) + seq![')']
    }

    /// The ledger after adding `diff` to its stock.
    pub open spec fn changed(self, diff: int) -> Resource {
        Resource { amount: (self.amount + diff) as i32, production: self.production }
    }

    /// The stock after `n` ticks of production, counted without bound.
    pub open spec fn after_ticks(self, n: nat) -> int {
        self.amount + n * self.production
    }

    /// A fresh ledger holding the base amount and the base production.
    pub fn new() -> (r: Resource)
        ensures
            r.amount == BASE_RESOURCE_AMOUNT,
            r.production == BASE_RESOURCE_PRODUCTION,
            r.is_fresh(),
    {
        Resource { amount: BASE_RESOURCE_AMOUNT, production: BASE_RESOURCE_PRODUCTION }
    }

    /// Applies one tick of production: the same as `change_amount(production)`.
    ///
    /// The new stock must fit in an `i32`: the ledger neither wraps nor saturates.
    pub fn produce(&mut self)
        requires
            fits_i32(old(self).amount + old(self).production),
        ensures
            *final(self) == old(self).changed(old(self).production as int),
            final(self).amount == old(self).amount + old(self).production,
            final(self).production == old(self).production,
            old(self).production > 0 ==> final(self).amount > old(self).amount,
            old(self).production == 0 ==> final(self).amount == old(self).amount,
            old(self).production < 0 ==> final(self).amount < old(self).amount,
    {
        self.change_amount(self.production);
    }

    /// Adds the signed `diff` to the stock; credits and debits alike.
    ///
    /// The new stock must fit in an `i32`: the ledger neither wraps nor saturates.
    pub fn change_amount(&mut self, diff: i32)
        requires
            fits_i32(old(self).amount + diff),
        ensures
            *final(self) == old(self).changed(diff as int),
            final(self).amount == old(self).amount + diff,
            final(self).production == old(self).production,
    {
        self.amount = self.amount + diff;
    }

    /// Renders the ledger as `<amount>,(<production>)`, for logs and snapshots.
    pub fn to_string(&self) -> (r: String)
        ensures
            r@ == self.text(),
    {
        let mut s = String::new();
        push_decimal(&mut s, self.amount);
        s.append(",(");
        push_decimal(&mut s, self.production);
        s.append(")");
        proof {
            reveal_strlit(",(");
            reveal_strlit(")");
        }
        assert(s@ =~= self.text());
        s
    }
}

/// Production is monotone in the number of ticks: with a positive production
/// the stock after `j` ticks is strictly above the stock after any earlier
/// `i`; with none it never moves; with a negative one it strictly falls.
pub proof fn lemma_produce_monotone(r: Resource, i: nat, j: nat)
    requires
        i < j,
    ensures
        r.production > 0 ==> r.after_ticks(i) < r.after_ticks(j),
        r.production == 0 ==> r.after_ticks(i) == r.after_ticks(j),
        r.production < 0 ==> r.after_ticks(i) > r.after_ticks(j),
        r.after_ticks(0) == r.amount,
        r.after_ticks(j) == r.after_ticks((j - 1) as nat) + r.production,
{
    assert(j * r.production == (j - 1) * r.production + r.production) by (nonlinear_arith);
    assert(r.production > 0 ==> i * r.production < j * r.production) by (nonlinear_arith)
        requires
            i < j,
    ;
    assert(r.production < 0 ==> i * r.production > j * r.production) by (nonlinear_arith)
        requires
            i < j,
    ;
    assert(r.production == 0 ==> i * r.production == j * r.production) by (nonlinear_arith);
}

/// Changing the stock by `d1` and then by `d2` leaves the same ledger as one
/// change by `d1 + d2`.
pub proof fn lemma_change_amount_additive(r: Resource, d1: i32, d2: i32)
    requires
        fits_i32(r.amount + d1),
        fits_i32(r.amount + d1 + d2),
        fits_i32(d1 + d2),
    ensures
        r.changed(d1 as int).changed(d2 as int) == r.changed((d1 + d2) as int),
{
}

} // verus!
