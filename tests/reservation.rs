use crystal::api::{Product, Variant};
use crystal::gate::{gate_step, GateAction};
use crystal::request::{BatchReservation, VariantReservation};
use crystal::sale::Sale;
use crystal::strategy::{All, Count, Single, TicketPriorityStrategy};
use crystal::task::TaskOptions;

fn variant(id: &str, availability: i64, per_user: i64, per_reservation: i64) -> Variant {
    Variant {
        id: id.to_string(),
        name: id.to_string(),
        inventory_id: id.to_string(),
        price_per_item: 1000,
        availability,
        product_variant_maximum_item_quantity_per_user: per_user,
        product_variant_maximum_reservable_quantity: per_reservation,
        ..Default::default()
    }
}

fn sale(variants: Vec<Variant>, cap: i64) -> Sale {
    Sale {
        product: Product {
            max_total_reservations_per_checkout: cap,
            date_sales_from: 1_700_000_000_000,
            ..Default::default()
        },
        variants,
        ..Default::default()
    }
}

fn hold(id: &str, quantity: i64) -> VariantReservation {
    VariantReservation { inventory_id: id.to_string(), quantity }
}

fn priority() -> TicketPriorityStrategy {
    TicketPriorityStrategy::new(TaskOptions::default())
}

#[test]
fn batch_create_and_cancel() {
    let h = hold("inv", 2);
    let c = BatchReservation::create(&h);
    assert_eq!(c.to_create, vec![hold("inv", 2)]);
    assert!(c.to_cancel.is_empty());
    let x = BatchReservation::cancel(&h);
    assert!(x.to_create.is_empty());
    assert_eq!(x.to_cancel, vec![hold("inv", 2)]);
}

#[test]
fn to_reservation_uses_strategy() {
    let v = variant("v", 5, 3, 10);
    assert_eq!(v.to_reservation(&Single), hold("v", 1));
    assert_eq!(v.to_reservation(&Count { count: 4 }), hold("v", 4));
    assert_eq!(v.to_reservation(&All), hold("v", 3));
}

#[test]
fn reserve_all_skips_sold_out_variants() {
    let s = sale(vec![variant("v1", 5, 10, 10), variant("v2", 0, 10, 10)], -1);
    let batch = s.plan_reserve_all(&All).unwrap();
    assert_eq!(batch.to_create, vec![hold("v1", 5)]);
    assert!(batch.to_cancel.is_empty());
}

#[test]
fn reserve_all_over_checkout_cap_sends_nothing() {
    let s = sale(vec![variant("v1", 5, 10, 10)], 3);
    assert_eq!(s.plan_reserve_all(&All), None);
}

#[test]
fn reserve_all_within_checkout_cap() {
    let s = sale(vec![variant("v1", 2, 10, 10), variant("v2", 1, 10, 10)], 3);
    let batch = s.plan_reserve_all(&All).unwrap();
    assert_eq!(batch.to_create, vec![hold("v1", 2), hold("v2", 1)]);
}

#[test]
fn reserve_all_without_stock_sends_nothing() {
    let s = sale(vec![variant("v1", 0, 10, 10)], -1);
    assert_eq!(s.plan_reserve_all(&All), None);
    let empty = sale(Vec::new(), -1);
    assert_eq!(empty.plan_reserve_all(&Single), None);
}

#[test]
fn reserve_best_holds_one_variant() {
    let s = sale(vec![variant("v1", 0, 10, 10), variant("v2", 4, 10, 10)], 3);
    let batch = s.plan_reserve_best(&Count { count: 2 }, &priority()).unwrap();
    assert_eq!(batch.to_create, vec![hold("v2", 2)]);
    let none = sale(vec![variant("v1", 0, 10, 10)], 3);
    assert_eq!(none.plan_reserve_best(&Single, &priority()), None);
}

#[test]
fn attempts_escalate_under_a_cap() {
    let s = sale(vec![variant("v1", 8, 10, 10)], 0);
    let batches = s.reservation_attempts(&priority(), 3);
    assert_eq!(batches.len(), 3);
    for (i, b) in batches.iter().enumerate() {
        assert_eq!(b.to_create, vec![hold("v1", i as i64 + 1)]);
    }
}

#[test]
fn attempts_without_a_cap_send_one_full_batch() {
    let s = sale(vec![variant("v1", 8, 10, 10), variant("v2", 0, 10, 10), variant("v3", 1, 1, 1)], -1);
    for count in [0, 1, 20] {
        let batches = s.reservation_attempts(&priority(), count);
        assert_eq!(batches.len(), 1);
        assert_eq!(batches[0].to_create, vec![hold("v1", 8), hold("v3", 1)]);
        assert!(batches[0].to_cancel.is_empty());
    }
}

#[test]
fn attempts_with_nothing_to_send() {
    let s = sale(vec![variant("v1", 0, 10, 10)], 5);
    assert!(s.reservation_attempts(&priority(), 4).is_empty());
    let t = sale(vec![variant("v1", 3, 10, 10)], 2);
    assert!(t.reservation_attempts(&priority(), 0).is_empty());
    let u = sale(vec![variant("v1", 0, 10, 10)], -1);
    assert!(u.reservation_attempts(&priority(), 20).is_empty());
}

#[test]
fn reserve_all_with_zero_cap_sends_nothing() {
    let s = sale(vec![variant("v1", 1, 10, 10)], 0);
    assert_eq!(s.plan_reserve_all(&All), None);
    let empty_hold = sale(vec![variant("v1", 1, 0, 10)], 0);
    assert_eq!(empty_hold.plan_reserve_all(&All).unwrap().to_create, vec![hold("v1", 0)]);
}

#[test]
fn gate_proceeds_once_variants_are_listed() {
    let s = sale(vec![variant("v1", 1, 1, 1)], -1);
    assert_eq!(gate_step(&s, 0), GateAction::Proceed);
}

#[test]
fn gate_polls_faster_near_the_start() {
    let start = 1_700_000_000_000;
    let s = sale(Vec::new(), -1);
    assert_eq!(gate_step(&s, start - 10_000), GateAction::Wait { millis: 1000 });
    assert_eq!(gate_step(&s, start - 2_001), GateAction::Wait { millis: 1000 });
    assert_eq!(gate_step(&s, start - 2_000), GateAction::Wait { millis: 100 });
    assert_eq!(gate_step(&s, start + 5_000), GateAction::Wait { millis: 100 });
}
