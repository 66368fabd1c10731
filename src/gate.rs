use vstd::prelude::*;
use crate::sale::Sale;

verus! {

/// What the sale gate does after looking at a fresh snapshot.
#[derive(Debug, Clone, Copy, PartialEq, Eq, Structural)]
pub enum GateAction {
    /// Variants are listed: reserving may start.
    Proceed,
    /// Nothing is listed yet: sleep this long, then fetch again.
    Wait { millis: u64 },
}

/// Milliseconds to sleep while a sale is closed: a second while more than
/// two seconds remain before the announced start, a tenth of one after.
pub open spec fn poll_delay(remaining_ms: int) -> u64 {
    if remaining_ms > 2000 {
        1000
    } else {
        100
    }
}

/// Decides, from a snapshot of `sale` taken at `now_ms`, whether to start
/// reserving or to poll again.
pub fn gate_step(sale: &Sale, now_ms: i64) -> (r: GateAction)
    ensures
        sale.variants@.len() > 0 ==> r == GateAction::Proceed,
        sale.variants@.len() == 0 ==> r == (GateAction::Wait {
            millis: poll_delay(sale.product.date_sales_from - now_ms),
        }),
{
    if sale.variants.len() > 0 {
        return GateAction::Proceed;
    }
    let remaining = sale.product.date_sales_from as i128 - now_ms as i128;
    if remaining > 2000 {
        GateAction::Wait { millis: 1000 }
    } else {
        GateAction::Wait { millis: 100 }
    }
}

} // verus!
