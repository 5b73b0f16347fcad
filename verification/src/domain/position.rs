//! Held positions and the exit prices planned for them.
use vstd::prelude::*;
use crate::clock::Date;
use crate::decimal::{Dec, rust_decimal_mul, safe_magnitude, lemma_pow10_small};

verus! {

/// A held position.
#[derive(Clone, Debug)]
pub struct Position {
    pub stock_code: String,
    pub stock_name: String,
    pub entry_date: Date,
    pub entry_price: Dec,
    pub qty: i64,
    pub highest_price_after_buy: Dec,
}

/// Exit prices of a position.
#[derive(Clone, Debug)]
pub struct SellPlan {
    pub stop_loss_price: Dec,
    pub target_price_1: Dec,
    pub target_price_2: Dec,
    pub trailing_stop_price: Dec,
}

/// `p * (m / 10^s)` with the factor written as a literal decimal.
pub open spec fn times(p: Dec, m: int, s: nat) -> (int, nat, bool) {
    rust_decimal_mul(p@, (m, s, m < 0))
}

/// `r` is `p * (m / 100)`: exact at two more places whenever `p` is not zero and that
/// fits; plain zero when `p` is zero.
pub open spec fn scaled_by_percent(r: Dec, p: Dec, m: int) -> bool {
    &&& r@ == times(p, m, 2)
    &&& r.wf()
    &&& (p.mantissa != 0 && p.scale + 2 <= 28 && -0x1000000000000000000000000 < p.m() * m
        < 0x1000000000000000000000000) ==> r.m() == p.m() * m && r.scale == p.scale + 2
    &&& p.mantissa == 0 ==> r == (Dec { mantissa: 0, scale: 0, negative: false })
}

/// Stop loss 2% below the buy price, targets 3% and 5% above it, and a trailing stop 2%
/// below the highest price since the buy.
pub fn build_sell_plan(buy_price: Dec, highest_price_after_buy: Dec) -> (r: SellPlan)
    requires
        buy_price.wf(),
        highest_price_after_buy.wf(),
        buy_price.mag() * 2 <= safe_magnitude(),
        highest_price_after_buy.mag() <= safe_magnitude(),
    ensures
        scaled_by_percent(r.stop_loss_price, buy_price, 98),
        scaled_by_percent(r.target_price_1, buy_price, 103),
        scaled_by_percent(r.target_price_2, buy_price, 105),
        scaled_by_percent(r.trailing_stop_price, highest_price_after_buy, 98),
{
    let f98 = Dec::new(98, 2);
    let f103 = Dec::new(103, 2);
    let f105 = Dec::new(105, 2);
    proof {
        lemma_pow10_small();
        assert(f98.mag() == 1);
        assert(f103.mag() == 2);
        assert(f105.mag() == 2);
    }
    SellPlan {
        stop_loss_price: buy_price.mul(&f98),
        target_price_1: buy_price.mul(&f103),
        target_price_2: buy_price.mul(&f105),
        trailing_stop_price: highest_price_after_buy.mul(&f98),
    }
}

} // verus!
