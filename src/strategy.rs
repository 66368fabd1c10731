use vstd::prelude::*;
use std::cmp::Ordering;
use crate::api::Variant;
use crate::fuzzy::{best_match_score, fuzzy_best_score};
use crate::task::TaskOptions;

verus! {

/// How many units to request of a variant.
pub trait Quantity {
    spec fn requested(&self, variant: Variant) -> i64;

    fn quantity(&self, variant: &Variant) -> (r: i64)
        ensures
            r == self.requested(*variant),
    ;
}

/// Always one unit.
pub struct Single;

impl Quantity for Single {
    open spec fn requested(&self, variant: Variant) -> i64 {
        1
    }

    fn quantity(&self, _variant: &Variant) -> (r: i64) {
        1
    }
}

/// A fixed number of units, whatever the variant allows.
pub struct Count {
    pub count: i64,
}

impl Quantity for Count {
    open spec fn requested(&self, variant: Variant) -> i64 {
        self.count
    }

    fn quantity(&self, _variant: &Variant) -> (r: i64) {
        self.count
    }
}

/// As many units as the variant's stock and both of its caps allow.
pub struct All;

pub open spec fn min_i64(a: i64, b: i64) -> i64 {
    if a <= b { a } else { b }
}

impl Quantity for All {
    open spec fn requested(&self, variant: Variant) -> i64 {
        min_i64(
            variant.availability,
            min_i64(
                variant.product_variant_maximum_item_quantity_per_user,
                variant.product_variant_maximum_reservable_quantity,
            ),
        )
    }

    fn quantity(&self, variant: &Variant) -> (r: i64) {
        let cap = if variant.product_variant_maximum_item_quantity_per_user
            <= variant.product_variant_maximum_reservable_quantity {
            variant.product_variant_maximum_item_quantity_per_user
        } else {
            variant.product_variant_maximum_reservable_quantity
        };
        if variant.availability <= cap {
            variant.availability
        } else {
            cap
        }
    }
}

/// The requested amount of `All` never exceeds the stock or either cap of
/// the variant.
pub proof fn lemma_all_within_limits(variant: Variant)
    ensures
        All.requested(variant) <= variant.availability,
        All.requested(variant) <= variant.product_variant_maximum_item_quantity_per_user,
        All.requested(variant) <= variant.product_variant_maximum_reservable_quantity,
{
}

/// What one keyword contributes to a name: its best fuzzy match score,
/// zero where it does not match.
pub open spec fn keyword_match(keyword: Seq<char>, name: Seq<char>) -> int {
    match fuzzy_best_score(keyword, name) {
        Some(s) => s as int,
        None => 0,
    }
}

/// The summed matches of the wanted keywords.
pub open spec fn positive_match(name: Seq<char>) -> int {
    keyword_match("4 hengen"@, name) + keyword_match("Promenade"@, name) + keyword_match(
        "A-hytti"@,
        name,
    ) + keyword_match("helga"@, name)
}

/// The summed matches of the keywords of restricted variants.
pub open spec fn negative_match(name: Seq<char>) -> int {
    keyword_match("allergia"@, name) + keyword_match("handicap"@, name) + keyword_match(
        "inva"@,
        name,
    )
}

/// How well a variant name reads: wanted keywords count once, restricted
/// ones ten times against.
pub open spec fn word_score(name: Seq<char>) -> int {
    positive_match(name) - 10 * negative_match(name)
}

/// The name score as a 32-bit value; a score out of that range counts as
/// zero.
pub open spec fn name_score(name: Seq<char>) -> int {
    let s = word_score(name);
    if i32::MIN <= s && s <= i32::MAX {
        s
    } else {
        0
    }
}

/// 100 where the unit price (minor units) equals the target price (major
/// units), else 0.
pub open spec fn price_score(options: TaskOptions, price: i64) -> int {
    match options.target_price {
        Some(t) => if price == t * 100 {
            100
        } else {
            0
        },
        None => 0,
    }
}

fn keyword_score(keyword: &str, name: &str) -> (r: i128)
    ensures
        r == keyword_match(keyword@, name@),
{
    match best_match_score(keyword, name) {
        Some(s) => s as i128,
        None => 0,
    }
}

/// Two results that both meet the choice contract are the same: the choice
/// depends on the variant list and the strategy alone.
pub proof fn lemma_choice_is_determined(
    strategy: TicketPriorityStrategy,
    variants: Seq<Variant>,
    r1: Option<Variant>,
    r2: Option<Variant>,
)
    requires
        strategy.is_best_choice(variants, r1),
        strategy.is_best_choice(variants, r2),
    ensures
        r1 == r2,
{
    match (r1, r2) {
        (Some(v1), Some(v2)) => {
            let i1 = choose|i: int|
                0 <= i < variants.len() && variants[i] == v1 && strategy.is_best_at(variants, i);
            let i2 = choose|i: int|
                0 <= i < variants.len() && variants[i] == v2 && strategy.is_best_at(variants, i);
            assert(i1 == i2) by {
                if i1 < i2 {
                    assert(strategy.eligible(variants[i1]));
                } else if i2 < i1 {
                    assert(strategy.eligible(variants[i2]));
                }
            }
        },
        (Some(v1), None) => {
            let i1 = choose|i: int|
                0 <= i < variants.len() && variants[i] == v1 && strategy.is_best_at(variants, i);
            assert(strategy.eligible(variants[i1]));
        },
        (None, Some(v2)) => {
            let i2 = choose|i: int|
                0 <= i < variants.len() && variants[i] == v2 && strategy.is_best_at(variants, i);
            assert(strategy.eligible(variants[i2]));
        },
        (None, None) => {},
    }
}

/// A chosen variant is in stock.
pub proof fn lemma_choice_in_stock(
    strategy: TicketPriorityStrategy,
    variants: Seq<Variant>,
    v: Variant,
)
    requires
        strategy.is_best_choice(variants, Some(v)),
    ensures
        v.availability > 0,
        !strategy.options.ignore_membership ==> !v.is_product_variant_membership_required,
{
    let i = choose|i: int|
        0 <= i < variants.len() && variants[i] == v && strategy.is_best_at(variants, i);
    assert(strategy.eligible(variants[i]));
}

/// Ranks variants by how well their name and price fit the task's options.
#[derive(Debug, Clone)]
pub struct TicketPriorityStrategy {
    pub name_weight: i32,
    pub price_weight: i32,
    pub options: TaskOptions,
}

impl TicketPriorityStrategy {
    pub fn new(options: TaskOptions) -> (r: Self)
        ensures
            r.name_weight == 1,
            r.price_weight == 1000,
            r.options == options,
    {
        TicketPriorityStrategy { name_weight: 1, price_weight: 1000, options }
    }

    /// Whether a variant may be chosen at all: it is in stock, and it needs
    /// no membership unless memberships are ignored.
    pub open spec fn eligible(&self, v: Variant) -> bool {
        v.availability > 0 && (self.options.ignore_membership
            || !v.is_product_variant_membership_required)
    }

    /// The weighted score of a variant.
    pub open spec fn score(&self, v: Variant) -> int {
        name_score(v.name@) * self.name_weight + price_score(self.options, v.price_per_item)
            * self.price_weight
    }

    /// `r` is the eligible variant of highest score, the first of them in
    /// `variants` where several share it, or `None` where none is eligible.
    pub open spec fn is_best_choice(&self, variants: Seq<Variant>, r: Option<Variant>) -> bool {
        match r {
            None => forall|j: int| 0 <= j < variants.len() ==> !self.eligible(#[trigger] variants[j]),
            Some(v) => exists|i: int|
                0 <= i < variants.len() && variants[i] == v && self.is_best_at(variants, i),
        }
    }

    /// The choice that `is_best_choice` pins down.
    pub open spec fn chosen(&self, variants: Seq<Variant>) -> Option<Variant> {
        choose|r: Option<Variant>| self.is_best_choice(variants, r)
    }

    pub open spec fn is_best_at(&self, variants: Seq<Variant>, i: int) -> bool {
        &&& self.eligible(variants[i])
        &&& forall|j: int|
            0 <= j < variants.len() && self.eligible(#[trigger] variants[j]) ==> self.score(
                variants[j],
            ) <= self.score(variants[i])
        &&& forall|j: int|
            0 <= j < i && self.eligible(#[trigger] variants[j]) ==> self.score(variants[j])
                < self.score(variants[i])
    }

    /// The score of the variant's name alone.
    pub fn score_word(word: &str) -> (r: i128)
        ensures
            r == word_score(word@),
    {
        let positive = keyword_score("4 hengen", word) + keyword_score("Promenade", word)
            + keyword_score("A-hytti", word) + keyword_score("helga", word);
        let negative = keyword_score("allergia", word) + keyword_score("handicap", word)
            + keyword_score("inva", word);
        positive - negative * 10
    }

    pub fn calculate_name_score(&self, name: &str) -> (r: i32)
        ensures
            r == name_score(name@),
    {
        let s = Self::score_word(name);
        if i32::MIN as i128 <= s && s <= i32::MAX as i128 {
            s as i32
        } else {
            0
        }
    }

    pub fn calculate_price_score(&self, price: i64) -> (r: i32)
        ensures
            r == price_score(self.options, price),
    {
        match self.options.target_price {
            Some(target_price) => {
                if price == target_price as i64 * 100 {
                    100
                } else {
                    0
                }
            },
            None => 0,
        }
    }

    pub fn calculate_score(&self, variant: &Variant) -> (r: i128)
        ensures
            r == self.score(*variant),
    {
        let name_score = self.calculate_name_score(&variant.name);
        let price_score = self.calculate_price_score(variant.price_per_item);
        assert(-0x8000_0000 * 0x8000_0000 <= name_score * self.name_weight <= 0x8000_0000
            * 0x8000_0000) by (nonlinear_arith)
            requires
                i32::MIN <= name_score <= i32::MAX,
                i32::MIN <= self.name_weight <= i32::MAX,
        ;
        assert(-0x8000_0000 * 0x8000_0000 <= price_score * self.price_weight <= 0x8000_0000
            * 0x8000_0000) by (nonlinear_arith)
            requires
                i32::MIN <= price_score <= i32::MAX,
                i32::MIN <= self.price_weight <= i32::MAX,
        ;
        name_score as i128 * self.name_weight as i128 + price_score as i128
            * self.price_weight as i128
    }

    /// Orders two variants best first: `Less` where `a` scores higher.
    pub fn compare_variants(&self, a: Variant, b: Variant) -> (r: Ordering)
        ensures
            r == Ordering::Less <==> self.score(a) > self.score(b),
            r == Ordering::Greater <==> self.score(a) < self.score(b),
            r == Ordering::Equal <==> self.score(a) == self.score(b),
    {
        let a_score = self.calculate_score(&a);
        let b_score = self.calculate_score(&b);
        if a_score > b_score {
            Ordering::Less
        } else if a_score < b_score {
            Ordering::Greater
        } else {
            Ordering::Equal
        }
    }

    /// The variant to reserve: the eligible one of highest score, the first
    /// of them on a tie, or `None` where no variant is eligible.
    pub fn choose_variant(&self, variants: &Vec<Variant>) -> (r: Option<Variant>)
        ensures
            self.is_best_choice(variants@, r),
            r == self.chosen(variants@),
    {
        let mut best: Option<usize> = None;
        let mut best_score: i128 = 0;
        for i in 0..variants.len()
            invariant
                best is None ==> forall|j: int| 0 <= j < i ==> !self.eligible(#[trigger] variants@[j]),
                best matches Some(b) ==> {
                    &&& b < i
                    &&& self.eligible(variants@[b as int])
                    &&& best_score == self.score(variants@[b as int])
                    &&& forall|j: int|
                        0 <= j < i && self.eligible(#[trigger] variants@[j]) ==> self.score(
                            variants@[j],
                        ) <= best_score
                    &&& forall|j: int|
                        0 <= j < b && self.eligible(#[trigger] variants@[j]) ==> self.score(
                            variants@[j],
                        ) < best_score
                },
        {
            let v = &variants[i];
            if v.availability > 0 && (self.options.ignore_membership
                || !v.is_product_variant_membership_required) {
                let s = self.calculate_score(v);
                match best {
                    None => {
                        best = Some(i);
                        best_score = s;
                    },
                    Some(_) => {
                        if s > best_score {
                            best = Some(i);
                            best_score = s;
                        }
                    },
                }
            }
        }
        match best {
            Some(b) => {
                let v = variants[b].clone();
                proof {
                    assert(self.is_best_at(variants@, b as int));
                    assert(self.is_best_choice(variants@, Some(v)));
                    lemma_choice_is_determined(*self, variants@, Some(v), self.chosen(variants@));
                }
                Some(v)
            },
            None => {
                proof {
                    assert(self.is_best_choice(variants@, None));
                    lemma_choice_is_determined(*self, variants@, None, self.chosen(variants@));
                }
                None
            },
        }
    }
}

} // verus!
