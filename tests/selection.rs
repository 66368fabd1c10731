use crystal::api::Variant;
use crystal::strategy::{All, Count, Quantity, Single, TicketPriorityStrategy};
use crystal::task::TaskOptions;

fn variant(id: &str, name: &str, price: i64, availability: i64, membership: bool) -> Variant {
    Variant {
        id: id.to_string(),
        name: name.to_string(),
        inventory_id: format!("inv-{}", id),
        price_per_item: price,
        availability,
        product_variant_maximum_item_quantity_per_user: 10,
        product_variant_maximum_reservable_quantity: 10,
        is_product_variant_membership_required: membership,
        ..Default::default()
    }
}

fn options(target_price: Option<i32>, ignore_membership: bool) -> TaskOptions {
    TaskOptions { target_price, target_name: None, use_regex: false, ignore_membership }
}

#[test]
fn default_options_ignore_membership() {
    let o = TaskOptions::default();
    assert_eq!(o.target_price, None);
    assert_eq!(o.target_name, None);
    assert!(!o.use_regex);
    assert!(o.ignore_membership);
}

#[test]
fn new_strategy_weights() {
    let s = TicketPriorityStrategy::new(options(None, true));
    assert_eq!(s.name_weight, 1);
    assert_eq!(s.price_weight, 1000);
}

#[test]
fn never_chooses_sold_out_variant() {
    let s = TicketPriorityStrategy::new(options(Some(50), true));
    let vs = vec![
        variant("a", "4 hengen A-hytti", 5000, 0, false),
        variant("b", "2 hengen C-hytti", 1000, -3, false),
        variant("c", "2 hengen B-hytti", 2000, 1, false),
    ];
    let chosen = s.choose_variant(&vs).unwrap();
    assert_eq!(chosen.id, "c");
    assert!(chosen.availability > 0);
}

#[test]
fn all_sold_out_gives_no_choice() {
    let s = TicketPriorityStrategy::new(options(None, true));
    let vs = vec![variant("a", "4 hengen A-hytti", 5000, 0, false)];
    assert_eq!(s.choose_variant(&vs), None);
    assert_eq!(s.choose_variant(&Vec::new()), None);
}

#[test]
fn membership_variants_skipped_unless_ignored() {
    let vs = vec![
        variant("m", "4 hengen Promenade A-hytti", 5000, 5, true),
        variant("p", "2 hengen C-hytti", 5000, 5, false),
    ];
    let strict = TicketPriorityStrategy::new(options(None, false));
    let chosen = strict.choose_variant(&vs).unwrap();
    assert_eq!(chosen.id, "p");
    assert!(!chosen.is_product_variant_membership_required);

    let only_members = vec![variant("m", "4 hengen A-hytti", 5000, 5, true)];
    assert_eq!(strict.choose_variant(&only_members), None);

    let lenient = TicketPriorityStrategy::new(options(None, true));
    assert_eq!(lenient.choose_variant(&only_members).unwrap().id, "m");
}

#[test]
fn choice_is_repeatable() {
    let s = TicketPriorityStrategy::new(options(Some(20), true));
    let vs = vec![
        variant("a", "2 hengen B-hytti – allergia", 3000, 4, false),
        variant("b", "4 hengen Promenade-hytti", 2500, 4, false),
        variant("c", "3 hengen A-hytti", 2000, 4, false),
        variant("d", "4 hengen C-hytti", 1500, 4, false),
    ];
    let first = s.choose_variant(&vs);
    for _ in 0..5 {
        assert_eq!(s.choose_variant(&vs), first);
    }
}

#[test]
fn ties_go_to_the_first_variant() {
    let s = TicketPriorityStrategy::new(options(None, true));
    let vs = vec![
        variant("x", "qqq", 100, 3, false),
        variant("y", "qqq", 200, 3, false),
    ];
    assert_eq!(s.choose_variant(&vs).unwrap().id, "x");
}

#[test]
fn target_price_dominates_name() {
    let s = TicketPriorityStrategy::new(options(Some(1000), true));
    let vs = vec![
        variant("best-name", "4 hengen Promenade A-hytti", 5000, 5, false),
        variant("priced", "2 hengen B-hytti – allergia", 100000, 5, false),
        variant("other", "4 hengen A-hytti", 90000, 5, false),
    ];
    assert_eq!(s.calculate_price_score(100000), 100);
    assert_eq!(s.calculate_price_score(5000), 0);
    assert_eq!(s.choose_variant(&vs).unwrap().id, "priced");
}

#[test]
fn price_score_without_target_is_zero() {
    let s = TicketPriorityStrategy::new(options(None, true));
    assert_eq!(s.calculate_price_score(100000), 0);
    assert_eq!(s.calculate_price_score(0), 0);
}

#[test]
fn name_score_rewards_keywords_and_penalises_restrictions() {
    assert_eq!(TicketPriorityStrategy::score_word("qqq"), 0);
    assert_eq!(TicketPriorityStrategy::score_word(""), 0);
    let good = TicketPriorityStrategy::score_word("4 hengen A-hytti");
    let bad = TicketPriorityStrategy::score_word("4 hengen A-hytti – allergia");
    assert!(good > 0);
    assert!(bad < good);
    let s = TicketPriorityStrategy::new(options(None, true));
    assert_eq!(s.calculate_name_score("4 hengen A-hytti") as i128, good);
}

#[test]
fn score_weighs_name_and_price() {
    let s = TicketPriorityStrategy::new(options(Some(10), true));
    let v = variant("a", "qqq", 1000, 1, false);
    assert_eq!(s.calculate_score(&v), 100 * 1000);
    let w = variant("b", "4 hengen", 1, 1, false);
    assert_eq!(s.calculate_score(&w), TicketPriorityStrategy::score_word("4 hengen"));
}

#[test]
fn compare_orders_best_first() {
    let s = TicketPriorityStrategy::new(options(Some(10), true));
    let a = variant("a", "qqq", 1000, 1, false);
    let b = variant("b", "qqq", 999, 1, false);
    assert_eq!(s.compare_variants(a.clone(), b.clone()), std::cmp::Ordering::Less);
    assert_eq!(s.compare_variants(b.clone(), a.clone()), std::cmp::Ordering::Greater);
    assert_eq!(s.compare_variants(a.clone(), a), std::cmp::Ordering::Equal);
}

#[test]
fn quantity_strategies() {
    let mut v = variant("a", "x", 1, 5, false);
    v.product_variant_maximum_item_quantity_per_user = 4;
    v.product_variant_maximum_reservable_quantity = 6;
    assert_eq!(Single.quantity(&v), 1);
    assert_eq!(Count { count: 7 }.quantity(&v), 7);
    assert_eq!(All.quantity(&v), 4);
    v.availability = 2;
    assert_eq!(All.quantity(&v), 2);
    v.product_variant_maximum_reservable_quantity = 1;
    assert_eq!(All.quantity(&v), 1);
}

#[test]
fn all_never_exceeds_any_limit() {
    for a in -2..6i64 {
        for u in -2..6i64 {
            for r in -2..6i64 {
                let mut v = variant("a", "x", 1, a, false);
                v.product_variant_maximum_item_quantity_per_user = u;
                v.product_variant_maximum_reservable_quantity = r;
                let q = All.quantity(&v);
                assert!(q <= a && q <= u && q <= r);
                assert!(q == a || q == u || q == r);
            }
        }
    }
}
