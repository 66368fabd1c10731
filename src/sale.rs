use vstd::prelude::*;
use crate::api::{Category, Company, Product, Variant};
use crate::request::{BatchReservation, VariantReservation};
use crate::strategy::{All, Count, Quantity, TicketPriorityStrategy};

verus! {

/// A snapshot of a sale: the product and its variants as fetched at one
/// moment.
#[derive(Debug, Clone, PartialEq, Eq, Default)]
pub struct Sale {
    pub company: Company,
    pub product: Product,
    pub variants: Vec<Variant>,
    pub categories: Vec<Category>,
    pub is_haka_required: bool,
}

/// The hold that `q` asks for on `v`.
pub open spec fn reservation_for<Q: Quantity>(v: Variant, q: Q) -> VariantReservation {
    VariantReservation { inventory_id: v.inventory_id, quantity: q.requested(v) }
}

/// One hold for each variant in stock, in the order of the variants.
pub open spec fn available_reservations<Q: Quantity>(
    variants: Seq<Variant>,
    q: Q,
) -> Seq<VariantReservation>
    decreases variants.len(),
{
    if variants.len() == 0 {
        Seq::empty()
    } else {
        let rest = available_reservations(variants.drop_last(), q);
        if variants.last().availability > 0 {
            rest.push(reservation_for(variants.last(), q))
        } else {
            rest
        }
    }
}

/// The number of units that the holds ask for together.
pub open spec fn total_quantity(holds: Seq<VariantReservation>) -> int
    decreases holds.len(),
{
    if holds.len() == 0 {
        0
    } else {
        total_quantity(holds.drop_last()) + holds.last().quantity
    }
}

/// The contents of a planned batch, if one was planned.
pub open spec fn batch_view(b: Option<BatchReservation>) -> Option<
    (Seq<VariantReservation>, Seq<VariantReservation>),
> {
    match b {
        Some(b) => Some(b@),
        None => None,
    }
}

/// A batch planned for every variant in stock never asks for more units
/// than the checkout cap allows, where one is set, and holds only variants
/// in stock.
pub proof fn lemma_all_plan_within_cap<Q: Quantity>(sale: Sale, q: Q)
    requires
        sale.all_plan(q) is Some,
    ensures
        ({
            let holds = sale.all_plan(q).unwrap().0;
            &&& sale.product.max_total_reservations_per_checkout >= 0 ==> total_quantity(holds)
                <= sale.product.max_total_reservations_per_checkout
            &&& holds.len() > 0
            &&& forall|k: int|
                0 <= k < holds.len() ==> exists|j: int|
                    0 <= j < sale.variants@.len() && sale.variants@[j].availability > 0
                        && #[trigger] holds[k] == reservation_for(sale.variants@[j], q)
        }),
{
    lemma_holds_in_stock(sale.variants@, q);
}

proof fn lemma_holds_in_stock<Q: Quantity>(variants: Seq<Variant>, q: Q)
    ensures
        forall|k: int|
            0 <= k < available_reservations(variants, q).len() ==> exists|j: int|
                0 <= j < variants.len() && variants[j].availability > 0
                    && #[trigger] available_reservations(variants, q)[k] == reservation_for(
                    variants[j],
                    q,
                ),
    decreases variants.len(),
{
    if variants.len() > 0 {
        let init = variants.drop_last();
        lemma_holds_in_stock(init, q);
        let holds = available_reservations(variants, q);
        let rest = available_reservations(init, q);
        assert forall|k: int| 0 <= k < holds.len() implies exists|j: int|
            0 <= j < variants.len() && variants[j].availability > 0 && #[trigger] holds[k]
                == reservation_for(variants[j], q) by {
            if k < rest.len() {
                let j = choose|j: int|
                    0 <= j < init.len() && init[j].availability > 0 && rest[k] == reservation_for(
                        init[j],
                        q,
                    );
                assert(variants[j] == init[j]);
            } else {
                assert(variants[variants.len() - 1] == variants.last());
            }
        }
    }
}

impl Variant {
    /// The hold that `strategy` asks for on this variant.
    pub fn to_reservation<Q: Quantity>(&self, strategy: &Q) -> (r: VariantReservation)
        ensures
            r == reservation_for(*self, *strategy),
    {
        VariantReservation {
            inventory_id: self.inventory_id.clone(),
            quantity: strategy.quantity(self),
        }
    }
}

impl Sale {
    /// Whether `total` units break the checkout cap, where one is set.
    pub open spec fn exceeds_checkout_cap(&self, total: int) -> bool {
        self.product.max_total_reservations_per_checkout >= 0 && total
            > self.product.max_total_reservations_per_checkout
    }

    /// Whether the product caps what one checkout may hold.
    pub open spec fn has_checkout_cap(&self) -> bool {
        self.product.max_total_reservations_per_checkout >= 0
    }

    /// The batch that reserves every variant in stock at once, unless there
    /// is none or the total breaks the checkout cap.
    pub open spec fn all_plan<Q: Quantity>(&self, q: Q) -> Option<
        (Seq<VariantReservation>, Seq<VariantReservation>),
    > {
        let holds = available_reservations(self.variants@, q);
        if holds.len() == 0 || self.exceeds_checkout_cap(total_quantity(holds)) {
            None
        } else {
            Some((holds, Seq::empty()))
        }
    }

    /// The batch that reserves the best variant alone, if there is one.
    pub open spec fn best_plan<Q: Quantity>(&self, q: Q, priority: TicketPriorityStrategy) -> Option<
        (Seq<VariantReservation>, Seq<VariantReservation>),
    > {
        match priority.chosen(self.variants@) {
            Some(v) => Some((seq![reservation_for(v, q)], Seq::empty())),
            None => None,
        }
    }

    /// The escalating attempts under a checkout cap: the best variant alone
    /// at 1, 2, ..., `n` units, in that order; none where no variant can be
    /// picked.
    pub open spec fn escalation_plans(&self, priority: TicketPriorityStrategy, n: int) -> Seq<
        (Seq<VariantReservation>, Seq<VariantReservation>),
    >
        decreases n,
    {
        if n <= 0 {
            Seq::empty()
        } else {
            let rest = self.escalation_plans(priority, n - 1);
            match self.best_plan(Count { count: n as i64 }, priority) {
                Some(b) => rest.push(b),
                None => rest,
            }
        }
    }

    /// The batches one account sends. Under a checkout cap: the escalating
    /// attempts up to `count` units. Without one: a single batch holding
    /// every variant in stock at all that is available, if it can be sent.
    pub open spec fn attempt_plans(&self, priority: TicketPriorityStrategy, count: int) -> Seq<
        (Seq<VariantReservation>, Seq<VariantReservation>),
    > {
        if self.has_checkout_cap() {
            self.escalation_plans(priority, count)
        } else {
            match self.all_plan(All) {
                Some(b) => seq![b],
                None => Seq::empty(),
            }
        }
    }

    /// The batch that reserves every variant in stock, each as `strategy`
    /// asks; `None` where no variant is in stock or the total breaks the
    /// checkout cap.
    pub fn plan_reserve_all<Q: Quantity>(&self, strategy: &Q) -> (r: Option<BatchReservation>)
        ensures
            batch_view(r) == self.all_plan(*strategy),
    {
        let mut total: i128 = 0;
        let mut holds: Vec<VariantReservation> = Vec::new();
        let n = self.variants.len();
        for i in 0..n
            invariant
                n == self.variants@.len(),
                holds@ == available_reservations(self.variants@.subrange(0, i as int), *strategy),
                total == total_quantity(holds@),
                -(i as int) * 0x8000_0000_0000_0000 <= total <= (i as int) * 0x8000_0000_0000_0000,
        {
            let ghost before = holds@;
            let variant = &self.variants[i];
            assert(self.variants@.subrange(0, i + 1).drop_last() =~= self.variants@.subrange(
                0,
                i as int,
            ));
            if variant.availability > 0 {
                let hold = variant.to_reservation(strategy);
                total = total + hold.quantity as i128;
                holds.push(hold);
                assert(holds@.drop_last() =~= before);
            }
        }
        assert(self.variants@.subrange(0, n as int) =~= self.variants@);
        if holds.len() == 0 {
            return None;
        }
        if self.product.max_total_reservations_per_checkout >= 0 && total
            > self.product.max_total_reservations_per_checkout as i128 {
            return None;
        }
        Some(BatchReservation { to_create: holds, to_cancel: Vec::new() })
    }

    /// The batch that reserves the variant that `priority` picks, as
    /// `strategy` asks; `None` where no variant can be picked.
    pub fn plan_reserve_best<Q: Quantity>(
        &self,
        strategy: &Q,
        priority: &TicketPriorityStrategy,
    ) -> (r: Option<BatchReservation>)
        ensures
            batch_view(r) == self.best_plan(*strategy, *priority),
    {
        match priority.choose_variant(&self.variants) {
            Some(variant) => {
                let hold = variant.to_reservation(strategy);
                Some(BatchReservation::create(&hold))
            },
            None => None,
        }
    }

    /// The batches one account sends, in order. Under a checkout cap,
    /// attempt `i` holds the best variant alone at `i` units, for `i` from 1
    /// to `count`. Without one, a single batch holds every variant in stock
    /// at all that is available.
    pub fn reservation_attempts(&self, priority: &TicketPriorityStrategy, count: i64) -> (r: Vec<
        BatchReservation,
    >)
        ensures
            r@.map_values(|b: BatchReservation| b@) == self.attempt_plans(*priority, count as int),
    {
        let mut batches: Vec<BatchReservation> = Vec::new();
        if self.product.max_total_reservations_per_checkout < 0 {
            match self.plan_reserve_all(&All) {
                Some(b) => {
                    batches.push(b);
                    assert(batches@.map_values(|b: BatchReservation| b@) =~= seq![batches@[0]@]);
                },
                None => {
                    assert(batches@.map_values(|b: BatchReservation| b@) =~= Seq::empty());
                },
            }
            return batches;
        }
        if count <= 0 {
            assert(batches@.map_values(|b: BatchReservation| b@) =~= Seq::empty());
            return batches;
        }
        for j in 0..count
            invariant
                self.has_checkout_cap(),
                batches@.map_values(|b: BatchReservation| b@) == self.escalation_plans(
                    *priority,
                    j as int,
                ),
        {
            let ghost before = batches@;
            match self.plan_reserve_best(&Count { count: j + 1 }, priority) {
                Some(b) => {
                    batches.push(b);
                    assert(batches@.map_values(|b: BatchReservation| b@) =~= before.map_values(
                        |b: BatchReservation| b@,
                    ).push(batches@.last()@));
                },
                None => {},
            }
        }
        batches
    }
}

} // verus!
