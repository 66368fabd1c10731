use vstd::prelude::*;

verus! {

/// The company that organises a sale.
#[derive(Debug, Clone, PartialEq, Eq, Default)]
pub struct Company {
    pub id: String,
    pub name: String,
}

/// A price in minor currency units.
#[derive(Debug, Clone, Copy, PartialEq, Eq, Default)]
pub struct Price {
    pub eur: i64,
}

/// A category a product is listed under.
#[derive(Debug, Clone, PartialEq, Eq, Default)]
pub struct Category {
    pub id: String,
    pub name: String,
    pub ordering_number: i64,
}

/// The product a sale is for. Timestamps are milliseconds since the Unix
/// epoch.
#[derive(Debug, Clone, PartialEq, Eq, Default)]
pub struct Product {
    pub id: String,
    pub name: String,
    pub company_id: String,
    pub date_sales_from: i64,
    pub date_sales_until: i64,
    pub availability: i64,
    pub max_price: Price,
    pub min_price: Price,
    pub sales_started: bool,
    pub sales_ended: bool,
    /// The most units one checkout may hold in total; a negative value
    /// means that no such cap is set.
    pub max_total_reservations_per_checkout: i64,
}

/// One purchasable option of a sale, as fetched at one moment.
#[derive(Debug, PartialEq, Eq, Default)]
pub struct Variant {
    pub id: String,
    pub name: String,
    pub description: String,
    pub inventory_id: String,
    pub currency_code: String,
    /// Price of one unit in minor currency units.
    pub price_per_item: i64,
    pub availability: i64,
    pub product_variant_maximum_item_quantity_per_user: i64,
    pub product_variant_maximum_reservable_quantity: i64,
    pub product_variant_minimum_reservable_quantity: i64,
    pub is_product_variant_membership_required: bool,
}

impl Clone for Variant {
    fn clone(&self) -> (r: Self)
        ensures
            r == *self,
    {
        Variant {
            id: self.id.clone(),
            name: self.name.clone(),
            description: self.description.clone(),
            inventory_id: self.inventory_id.clone(),
            currency_code: self.currency_code.clone(),
            price_per_item: self.price_per_item,
            availability: self.availability,
            product_variant_maximum_item_quantity_per_user: self.product_variant_maximum_item_quantity_per_user,
            product_variant_maximum_reservable_quantity: self.product_variant_maximum_reservable_quantity,
            product_variant_minimum_reservable_quantity: self.product_variant_minimum_reservable_quantity,
            is_product_variant_membership_required: self.is_product_variant_membership_required,
        }
    }
}

} // verus!
