use vstd::prelude::*;

verus! {

/// A request for `quantity` units of one inventory item.
#[derive(Debug, PartialEq, Eq, Default)]
pub struct VariantReservation {
    pub inventory_id: String,
    pub quantity: i64,
}

impl Clone for VariantReservation {
    fn clone(&self) -> (r: Self)
        ensures
            r == *self,
    {
        VariantReservation { inventory_id: self.inventory_id.clone(), quantity: self.quantity }
    }
}

/// One reservation call: the holds to create and the holds to cancel.
#[derive(Debug, PartialEq, Eq, Default)]
pub struct BatchReservation {
    pub to_create: Vec<VariantReservation>,
    pub to_cancel: Vec<VariantReservation>,
}

impl View for BatchReservation {
    type V = (Seq<VariantReservation>, Seq<VariantReservation>);

    open spec fn view(&self) -> Self::V {
        (self.to_create@, self.to_cancel@)
    }
}

impl BatchReservation {
    /// A batch that creates the one hold.
    pub fn create(variant: &VariantReservation) -> (r: Self)
        ensures
            r@ == (seq![*variant], Seq::<VariantReservation>::empty()),
    {
        let r = BatchReservation { to_create: vec![variant.clone()], to_cancel: Vec::new() };
        assert(r.to_create@ =~= seq![*variant]);
        r
    }

    /// A batch that cancels the one hold.
    pub fn cancel(variant: &VariantReservation) -> (r: Self)
        ensures
            r@ == (Seq::<VariantReservation>::empty(), seq![*variant]),
    {
        let r = BatchReservation { to_create: Vec::new(), to_cancel: vec![variant.clone()] };
        assert(r.to_cancel@ =~= seq![*variant]);
        r
    }
}

} // verus!
