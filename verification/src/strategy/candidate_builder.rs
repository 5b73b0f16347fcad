//! Turns the screened stocks of one day into trade candidates, best first.
use vstd::prelude::*;
use crate::clock::Date;
use crate::config::StrategySection;
use crate::decimal::{
    Dec, dec_of, lemma_le_total, lemma_le_trans, lemma_lt_le_trans, lemma_pow10_small, lit_dec,
    rust_decimal_mul, safe_magnitude,
};
use crate::domain::{
    CandidateStatus, FinancialRatio, InvestorFlowDaily, OhlcvDaily, StockBasic, StrategyType,
    TradeCandidate,
};
use super::filters::{
    exclusion_reason, filter_outcome, filters_computable, passes_candidate_filters,
    screen_passes_exactly_when,
};
use super::scoring::{
    amount_sums_fit, average_amount_of, average_trade_amount, clamp_int, clamp_of, close_budget,
    count_foreign_buy_days, count_institution_buy_days, final_score, foreign_buy_days,
    foreign_net_sum, inst_buy_days, inst_net_sum, is_plain_int, last_rows, flow_total,
    buying_days, lemma_flow_totals,
    liquidity_points, liquidity_score, moving_average, moving_average_of, risk_points, risk_score,
    rows_wf, sum_foreign_net_buy, sum_institution_net_buy, supply_points, supply_score,
    trend_points, trend_score, weighted_sum, wick_computable, fits_i64,
};

verus! {

/// What the builder reads of one stock for one day.
#[derive(Clone, Debug)]
pub struct StockInputs {
    pub stock: StockBasic,
    pub flows: Vec<InvestorFlowDaily>,
    pub ohlcv: Vec<OhlcvDaily>,
    pub financial: Option<FinancialRatio>,
    pub market_cap: Option<i64>,
}

pub open spec fn fin_ref(o: &Option<FinancialRatio>) -> Option<&FinancialRatio> {
    match o {
        Some(f) => Some(f),
        None => None,
    }
}

/// The strategies a passing stock gets a candidate for, in this order: breakout,
/// pullback, opening, each when enabled.
pub open spec fn enabled_strategies(s: StrategySection) -> Seq<StrategyType> {
    (if s.enable_breakout_strategy {
        seq![StrategyType::Breakout]
    } else {
        Seq::empty()
    }) + (if s.enable_pullback_strategy {
        seq![StrategyType::Pullback]
    } else {
        Seq::empty()
    }) + (if s.enable_opening_strategy {
        seq![StrategyType::Opening]
    } else {
        Seq::empty()
    })
}

/// The larger of two decimals, the left one on a tie.
pub open spec fn max_of(left: Dec, right: Dec) -> Dec {
    if !left.lt(right) {
        left
    } else {
        right
    }
}

pub open spec fn amount_opt(a: Option<int>) -> Option<i64> {
    match a {
        Some(v) => Some(v as i64),
        None => None,
    }
}

/// `c` is the candidate of `strategy_type` built on `date` from these inputs.
pub open spec fn candidate_matches(
    c: TradeCandidate,
    date: Date,
    stock: StockBasic,
    flows: Seq<InvestorFlowDaily>,
    ohlcv: Seq<OhlcvDaily>,
    financial: Option<&FinancialRatio>,
    market_cap: Option<i64>,
    strategy_type: StrategyType,
) -> bool {
    let latest = ohlcv.last();
    let prev = ohlcv[ohlcv.len() - 2];
    let ma5 = moving_average_of(ohlcv, 5);
    let ma20 = moving_average_of(ohlcv, 20);
    let inst_days = inst_buy_days(flows) as i32;
    let foreign_days = foreign_buy_days(flows) as i32;
    let total = inst_net_sum(flows) + foreign_net_sum(flows);
    &&& c.trade_date == date
    &&& c.stock_code@ == stock.stock_code@
    &&& c.stock_name@ == stock.stock_name@
    &&& is_plain_int(
        c.supply_score,
        clamp_int(supply_points(inst_days as int, foreign_days as int, total, market_cap)),
    )
    &&& is_plain_int(c.liquidity_score, clamp_int(liquidity_points(ohlcv)))
    &&& is_plain_int(c.trend_score, clamp_int(trend_points(ohlcv, ma5, ma20)))
    &&& is_plain_int(c.risk_score, clamp_int(risk_points(financial, Some(&latest), Some(&prev))))
    &&& c.final_score == clamp_of(
        weighted_sum(c.supply_score, c.liquidity_score, c.trend_score, c.risk_score),
    ).rounded(2)
    &&& c.inst_buy_days == inst_days
    &&& c.foreign_buy_days == foreign_days
    &&& c.inst_net_buy_amt_5d == inst_net_sum(flows)
    &&& c.foreign_net_buy_amt_5d == foreign_net_sum(flows)
    &&& c.total_net_buy_amt_5d == total
    &&& c.market_cap == market_cap
    &&& c.avg_trade_amount_20d == amount_opt(average_amount_of(ohlcv, 20))
    &&& c.prev_close == latest.close_price
    &&& c.prev_high == latest.high_price
    &&& c.prev_low == latest.low_price
    &&& c.ma5 == ma5
    &&& c.ma20 == ma20
    &&& c.breakout_price == Some(dec_of(rust_decimal_mul(latest.high_price@, lit_dec(1001, 3)@)))
    &&& c.pullback_price == (match ma5 {
        Some(m) => Some(
            max_of(m, dec_of(rust_decimal_mul(latest.close_price@, lit_dec(985, 3)@))),
        ),
        None => None,
    })
    &&& c.stop_loss_price == Some(dec_of(rust_decimal_mul(latest.close_price@, lit_dec(98, 2)@)))
    &&& c.target_price == Some(dec_of(rust_decimal_mul(latest.close_price@, lit_dec(103, 2)@)))
    &&& c.strategy_type == strategy_type
    &&& c.status == CandidateStatus::Ready
}

/// What building needs of one stock's inputs to stay clear of overflow.
pub open spec fn stock_computable(
    flows: Seq<InvestorFlowDaily>,
    ohlcv: Seq<OhlcvDaily>,
    financial: Option<&FinancialRatio>,
    strategy: StrategySection,
) -> bool {
    &&& filters_computable(flows, ohlcv, strategy)
    &&& rows_wf(ohlcv)
    &&& amount_sums_fit(ohlcv, 5)
    &&& ohlcv.len() >= 20 ==> close_budget(last_rows(ohlcv, 20)) < safe_magnitude()
    &&& ohlcv.len() >= 20 ==> close_budget(last_rows(ohlcv, 5)) < safe_magnitude()
    &&& forall|i: int|
        0 <= i < ohlcv.len() ==> (#[trigger] ohlcv[i]).high_price.mag() * 2 <= safe_magnitude()
            && ohlcv[i].close_price.mag() * 2 <= safe_magnitude()
    &&& ohlcv.len() >= 1 ==> wick_computable(ohlcv.last())
    &&& ohlcv.len() >= 2 ==> fits_i64(ohlcv[ohlcv.len() - 2].volume * 3)
    &&& financial matches Some(f) ==> f.wf()
}

/// One candidate, its prices and scores taken from the arguments.
#[allow(clippy::too_many_arguments)]
fn candidate(
    date: Date,
    stock: &StockBasic,
    supply_score: Dec,
    liquidity_score: Dec,
    trend_score: Dec,
    risk_score: Dec,
    final_score: Dec,
    inst_buy_days: i32,
    foreign_buy_days: i32,
    inst_sum: i64,
    foreign_sum: i64,
    total_sum: i64,
    market_cap: Option<i64>,
    avg_trade_amount_20d: Option<i64>,
    latest: &OhlcvDaily,
    ma5: Option<Dec>,
    ma20: Option<Dec>,
    breakout_price: Option<Dec>,
    pullback_price: Option<Dec>,
    stop_loss_price: Option<Dec>,
    target_price: Option<Dec>,
    strategy_type: StrategyType,
) -> (r: TradeCandidate)
    ensures
        r.trade_date == date,
        r.stock_code@ == stock.stock_code@,
        r.stock_name@ == stock.stock_name@,
        r.supply_score == supply_score,
        r.liquidity_score == liquidity_score,
        r.trend_score == trend_score,
        r.risk_score == risk_score,
        r.final_score == final_score,
        r.inst_buy_days == inst_buy_days,
        r.foreign_buy_days == foreign_buy_days,
        r.inst_net_buy_amt_5d == inst_sum,
        r.foreign_net_buy_amt_5d == foreign_sum,
        r.total_net_buy_amt_5d == total_sum,
        r.market_cap == market_cap,
        r.avg_trade_amount_20d == avg_trade_amount_20d,
        r.prev_close == latest.close_price,
        r.prev_high == latest.high_price,
        r.prev_low == latest.low_price,
        r.ma5 == ma5,
        r.ma20 == ma20,
        r.breakout_price == breakout_price,
        r.pullback_price == pullback_price,
        r.stop_loss_price == stop_loss_price,
        r.target_price == target_price,
        r.strategy_type == strategy_type,
        r.status == CandidateStatus::Ready,
{
    TradeCandidate {
        trade_date: date,
        stock_code: stock.stock_code.clone(),
        stock_name: stock.stock_name.clone(),
        supply_score,
        liquidity_score,
        trend_score,
        risk_score,
        final_score,
        inst_buy_days,
        foreign_buy_days,
        inst_net_buy_amt_5d: inst_sum,
        foreign_net_buy_amt_5d: foreign_sum,
        total_net_buy_amt_5d: total_sum,
        market_cap,
        avg_trade_amount_20d,
        prev_close: latest.close_price,
        prev_high: latest.high_price,
        prev_low: latest.low_price,
        ma5,
        ma20,
        breakout_price,
        pullback_price,
        stop_loss_price,
        target_price,
        strategy_type,
        status: CandidateStatus::Ready,
    }
}

fn max_decimal(left: Dec, right: Dec) -> (r: Dec)
    requires
        left.wf(),
        right.wf(),
    ensures
        r == max_of(left, right),
{
    if !left.less(&right) {
        left
    } else {
        right
    }
}

/// Screens one stock and, when it passes, builds one candidate per enabled strategy
/// (breakout, pullback, opening) with its scores and reference prices; otherwise returns
/// the reason it was skipped.
pub fn build_stock_candidates(date: Date, strategy: &StrategySection, input: &StockInputs) -> (r:
    Result<Vec<TradeCandidate>, String>)
    requires
        stock_computable(input.flows@, input.ohlcv@, fin_ref(&input.financial), *strategy),
    ensures
        r is Err <==> filter_outcome(
            input.stock,
            input.flows@,
            input.ohlcv@,
            fin_ref(&input.financial),
            input.market_cap,
            *strategy,
        ) is Err,
        r is Err ==> filter_outcome(
            input.stock,
            input.flows@,
            input.ohlcv@,
            fin_ref(&input.financial),
            input.market_cap,
            *strategy,
        ) == Err::<(), Seq<char>>(r->Err_0@),
        r is Ok ==> r->Ok_0@.len() == enabled_strategies(*strategy).len(),
        r is Ok ==> forall|i: int|
            0 <= i < r->Ok_0@.len() ==> candidate_matches(
                #[trigger] r->Ok_0@[i],
                date,
                input.stock,
                input.flows@,
                input.ohlcv@,
                fin_ref(&input.financial),
                input.market_cap,
                enabled_strategies(*strategy)[i],
            ),
        r is Ok ==> forall|i: int| 0 <= i < r->Ok_0@.len() ==> (#[trigger] r->Ok_0@[i]).wf(),
{
    proof {
        lemma_pow10_small();
    }
    let stock = &input.stock;
    let flows = input.flows.as_slice();
    let ohlcv = input.ohlcv.as_slice();
    let financial: Option<&FinancialRatio> = match &input.financial {
        Some(f) => Some(f),
        None => None,
    };
    assert(financial == fin_ref(&input.financial));
    match passes_candidate_filters(stock, flows, ohlcv, financial, input.market_cap, strategy) {
        Err(reason) => {
            return Err(reason);
        },
        Ok(()) => {},
    }
    let inst_buy_days = count_institution_buy_days(flows);
    let foreign_buy_days = count_foreign_buy_days(flows);
    let inst_sum = sum_institution_net_buy(flows);
    let foreign_sum = sum_foreign_net_buy(flows);
    let total_sum = inst_sum + foreign_sum;
    let ma5 = moving_average(ohlcv, 5);
    let ma20 = moving_average(ohlcv, 20);
    let n = ohlcv.len();
    let latest = &ohlcv[n - 1];
    let previous = &ohlcv[n - 2];
    assert(ohlcv@[n - 1].wf());
    assert(ohlcv@[n - 1].high_price.mag() * 2 <= safe_magnitude());
    assert(ohlcv@[n - 1].close_price.mag() * 2 <= safe_magnitude());
    let supply = supply_score(inst_buy_days, foreign_buy_days, total_sum, input.market_cap);
    let liquidity = liquidity_score(ohlcv);
    proof {
        assert forall|i: int| 0 <= i < ohlcv@.len() implies (#[trigger] ohlcv@[i]).high_price.mag()
            <= safe_magnitude() by {
            assert(ohlcv@[i].high_price.mag() * 2 <= safe_magnitude());
        }
    }
    let trend = trend_score(ohlcv, ma5, ma20);
    let risk = risk_score(financial, Some(latest), Some(previous));
    let final_value = final_score(supply, liquidity, trend, risk).round_dp(2);
    let avg_trade_amount_20d = average_trade_amount(ohlcv, 20);
    let f985 = Dec::new(985, 3);
    let f1001 = Dec::new(1001, 3);
    let f98 = Dec::new(98, 2);
    let f103 = Dec::new(103, 2);
    assert(f985.mag() == 1 && f1001.mag() == 2 && f98.mag() == 1 && f103.mag() == 2);
    let pullback_price = match ma5 {
        Some(ma) => Some(max_decimal(ma, latest.close_price.mul(&f985))),
        None => None,
    };
    let breakout_price = Some(latest.high_price.mul(&f1001));
    let stop_loss_price = Some(latest.close_price.mul(&f98));
    let target_price = Some(latest.close_price.mul(&f103));
    let mut built: Vec<TradeCandidate> = Vec::new();
    let ghost expected = enabled_strategies(*strategy);
    let ghost matches = |c: TradeCandidate, st: StrategyType| candidate_matches(
        c,
        date,
        input.stock,
        input.flows@,
        input.ohlcv@,
        fin_ref(&input.financial),
        input.market_cap,
        st,
    ) && c.wf();
    if strategy.enable_breakout_strategy {
        built.push(
            candidate(
                date,
                stock,
                supply,
                liquidity,
                trend,
                risk,
                final_value,
                inst_buy_days,
                foreign_buy_days,
                inst_sum,
                foreign_sum,
                total_sum,
                input.market_cap,
                avg_trade_amount_20d,
                latest,
                ma5,
                ma20,
                breakout_price,
                pullback_price,
                stop_loss_price,
                target_price,
                StrategyType::Breakout,
            ),
        );
    }
    let ghost after_breakout = built@;
    assert(forall|i: int| 0 <= i < built@.len() ==> matches(#[trigger] built@[i], StrategyType::Breakout));
    if strategy.enable_pullback_strategy {
        built.push(
            candidate(
                date,
                stock,
                supply,
                liquidity,
                trend,
                risk,
                final_value,
                inst_buy_days,
                foreign_buy_days,
                inst_sum,
                foreign_sum,
                total_sum,
                input.market_cap,
                avg_trade_amount_20d,
                latest,
                ma5,
                ma20,
                breakout_price,
                pullback_price,
                stop_loss_price,
                target_price,
                StrategyType::Pullback,
            ),
        );
    }
    let ghost after_pullback = built@;
    if strategy.enable_opening_strategy {
        built.push(
            candidate(
                date,
                stock,
                supply,
                liquidity,
                trend,
                risk,
                final_value,
                inst_buy_days,
                foreign_buy_days,
                inst_sum,
                foreign_sum,
                total_sum,
                input.market_cap,
                avg_trade_amount_20d,
                latest,
                ma5,
                ma20,
                breakout_price,
                pullback_price,
                stop_loss_price,
                target_price,
                StrategyType::Opening,
            ),
        );
    }
    proof {
        assert(built@.len() == expected.len());
        assert forall|i: int| 0 <= i < built@.len() implies matches(
            #[trigger] built@[i],
            expected[i],
        ) by {
            if strategy.enable_breakout_strategy && i == 0 {
                assert(expected[0] == StrategyType::Breakout);
            }
        }
    }
    Ok(built)
}

/// Final scores never increase along the sequence.
pub open spec fn sorted_by_score_desc(s: Seq<TradeCandidate>) -> bool {
    forall|a: int, b: int| 0 <= a < b < s.len() ==> s[b].final_score.le(s[a].final_score)
}

/// `r` is `input` reordered by `perm` (`r[k]` is `input[perm[k]]`), and candidates with
/// equal final scores keep their order.
pub open spec fn is_stable_reordering(
    r: Seq<TradeCandidate>,
    input: Seq<TradeCandidate>,
    perm: Seq<int>,
) -> bool {
    &&& r.len() == input.len()
    &&& perm.len() == r.len()
    &&& forall|k: int|
        0 <= k < r.len() ==> 0 <= #[trigger] perm[k] < input.len() && r[k] == input[perm[k]]
    &&& forall|k: int, l: int| 0 <= k < l < r.len() ==> perm[k] != perm[l]
    &&& forall|k: int, l: int|
        0 <= k < l < r.len() && r[k].final_score.le(r[l].final_score) ==> perm[k] < perm[l]
}

pub open spec fn all_wf(s: Seq<TradeCandidate>) -> bool {
    forall|i: int| 0 <= i < s.len() ==> (#[trigger] s[i]).wf()
}

/// Orders candidates by final score, highest first; candidates with equal scores keep
/// their order (a stable sort).
pub fn sort_by_final_score(candidates: Vec<TradeCandidate>) -> (r: Vec<TradeCandidate>)
    requires
        all_wf(candidates@),
    ensures
        sorted_by_score_desc(r@),
        all_wf(r@),
        exists|perm: Seq<int>| is_stable_reordering(r@, candidates@, perm),
{
    let ghost input = candidates@;
    let n = candidates.len();
    let mut rest = candidates;
    let mut result: Vec<TradeCandidate> = Vec::new();
    let ghost mut perm: Seq<int> = Seq::empty();
    let mut i: usize = 0;
    while i < n
        invariant
            n == input.len(),
            i <= n,
            all_wf(input),
            rest@ == input.skip(i as int),
            result@.len() == i,
            all_wf(result@),
            perm.len() == i,
            sorted_by_score_desc(result@),
            forall|k: int|
                0 <= k < result@.len() ==> 0 <= #[trigger] perm[k] < i && result@[k] == input[perm[k]],
            forall|k: int, l: int| 0 <= k < l < result@.len() ==> perm[k] != perm[l],
            forall|k: int, l: int|
                0 <= k < l < result@.len() && result@[k].final_score.le(result@[l].final_score)
                    ==> perm[k] < perm[l],
        decreases n - i,
    {
        assert(rest@.len() > 0);
        assert(rest@[0] == input[i as int]);
        let c = rest.remove(0);
        assert(rest@ =~= input.skip(i + 1));
        assert(c.wf());
        let mut p: usize = 0;
        while p < result.len() && !result[p].final_score.less(&c.final_score)
            invariant
                p <= result@.len(),
                c.wf(),
                all_wf(input),
                result@.len() == i,
                all_wf(result@),
                forall|q: int| 0 <= q < p ==> c.final_score.le(#[trigger] result@[q].final_score),
            decreases result@.len() - p,
        {
            assert(result@[p as int].wf());
            proof {
                lemma_le_total(result@[p as int].final_score, c.final_score);
            }
            p = p + 1;
        }
        proof {
            if p < result@.len() {
                assert(result@[p as int].wf());
                assert(result@[p as int].final_score.lt(c.final_score));
            }
        }
        let ghost old_result = result@;
        let ghost old_perm = perm;
        result.insert(p, c);
        proof {
            assert forall|q: int| 0 <= q < result@.len() implies (#[trigger] result@[q]).wf() by {
                if q < p {
                    assert(result@[q] == old_result[q]);
                } else if q > p {
                    assert(result@[q] == old_result[q - 1]);
                }
            }
            perm = old_perm.insert(p as int, i as int);
            assert(result@ == old_result.insert(p as int, c));
            assert forall|a: int, b: int| 0 <= a < b < result@.len() implies result@[b].final_score.le(
                result@[a].final_score,
            ) by {
                if a < p && b == p {
                } else if a == p {
                    // b > p: the moved element is below the inserted one
                    assert(result@[b] == old_result[b - 1]);
                    if b - 1 == p {
                        lemma_le_total(old_result[p as int].final_score, c.final_score);
                    } else {
                        lemma_le_total(old_result[p as int].final_score, c.final_score);
                        lemma_le_trans(
                            old_result[b - 1].final_score,
                            old_result[p as int].final_score,
                            c.final_score,
                        );
                    }
                } else if a < p && b > p {
                    assert(result@[b] == old_result[b - 1]);
                    assert(result@[a] == old_result[a]);
                } else if a > p {
                    assert(result@[b] == old_result[b - 1]);
                    assert(result@[a] == old_result[a - 1]);
                } else {
                    assert(result@[b] == old_result[b]);
                    assert(result@[a] == old_result[a]);
                }
            }
            assert forall|k: int| 0 <= k < result@.len() implies 0 <= #[trigger] perm[k] < i + 1
                && result@[k] == input[perm[k]] by {
                if k < p {
                    assert(perm[k] == old_perm[k]);
                } else if k > p {
                    assert(perm[k] == old_perm[k - 1]);
                }
            }
            assert forall|k: int, l: int| 0 <= k < l < result@.len() implies perm[k] != perm[l] by {
                if k < p && l > p {
                    assert(perm[l] == old_perm[l - 1]);
                } else if k > p {
                    assert(perm[l] == old_perm[l - 1]);
                    assert(perm[k] == old_perm[k - 1]);
                } else if l < p {
                } else if k == p {
                    assert(perm[l] == old_perm[l - 1]);
                }
            }
            assert forall|k: int, l: int|
                0 <= k < l < result@.len() && result@[k].final_score.le(
                    result@[l].final_score,
                ) implies perm[k] < perm[l] by {
                if k == p {
                    // every later element scores strictly below the inserted one
                    assert(result@[l] == old_result[l - 1]);
                    if l - 1 > p {
                        lemma_le_trans(
                            c.final_score,
                            old_result[l - 1].final_score,
                            old_result[p as int].final_score,
                        );
                    }
                    lemma_lt_le_trans(
                        old_result[p as int].final_score,
                        c.final_score,
                        old_result[p as int].final_score,
                    );
                    assert(false);
                } else if l == p {
                    assert(perm[k] == old_perm[k]);
                } else if k > p {
                    assert(perm[l] == old_perm[l - 1]);
                    assert(perm[k] == old_perm[k - 1]);
                    assert(result@[l] == old_result[l - 1]);
                    assert(result@[k] == old_result[k - 1]);
                } else if l > p {
                    assert(perm[l] == old_perm[l - 1]);
                    assert(result@[l] == old_result[l - 1]);
                    assert(result@[k] == old_result[k]);
                } else {
                    assert(result@[l] == old_result[l]);
                    assert(result@[k] == old_result[k]);
                }
            }
        }
        i = i + 1;
    }
    proof {
        assert(is_stable_reordering(result@, input, perm));
    }
    result
}

/// The stock passes the screen.
pub open spec fn passes(input: StockInputs, strategy: StrategySection) -> bool {
    filter_outcome(
        input.stock,
        input.flows@,
        input.ohlcv@,
        fin_ref(&input.financial),
        input.market_cap,
        strategy,
    ) is Ok
}

/// The candidates built before sorting, as (stock index, strategy): stocks in input order,
/// each passing stock with its enabled strategies.
pub open spec fn slots(inputs: Seq<StockInputs>, strategy: StrategySection) -> Seq<
    (int, StrategyType),
>
    decreases inputs.len(),
{
    if inputs.len() == 0 {
        Seq::empty()
    } else {
        let k = inputs.len() - 1;
        slots(inputs.drop_last(), strategy) + if passes(inputs[k], strategy) {
            enabled_strategies(strategy).map_values(|st: StrategyType| (k, st))
        } else {
            Seq::empty()
        }
    }
}

/// `collected` holds, slot by slot, the candidates built from `inputs`.
pub open spec fn built_from(
    collected: Seq<TradeCandidate>,
    date: Date,
    inputs: Seq<StockInputs>,
    strategy: StrategySection,
) -> bool {
    let sl = slots(inputs, strategy);
    &&& collected.len() == sl.len()
    &&& forall|j: int|
        0 <= j < collected.len() ==> {
            let input = #[trigger] inputs[sl[j].0];
            candidate_matches(
                collected[j],
                date,
                input.stock,
                input.flows@,
                input.ohlcv@,
                fin_ref(&input.financial),
                input.market_cap,
                sl[j].1,
            )
        }
}

proof fn lemma_slots_in_range(inputs: Seq<StockInputs>, strategy: StrategySection)
    ensures
        forall|j: int|
            0 <= j < slots(inputs, strategy).len() ==> 0 <= (#[trigger] slots(inputs, strategy)[j]).0
                < inputs.len(),
    decreases inputs.len(),
{
    if inputs.len() > 0 {
        let k = inputs.len() - 1;
        lemma_slots_in_range(inputs.drop_last(), strategy);
        let old_sl = slots(inputs.drop_last(), strategy);
        let extra = if passes(inputs[k], strategy) {
            enabled_strategies(strategy).map_values(|st: StrategyType| (k, st))
        } else {
            Seq::empty()
        };
        assert(slots(inputs, strategy) == old_sl + extra);
        assert forall|j: int| 0 <= j < slots(inputs, strategy).len() implies 0 <= (
        #[trigger] slots(inputs, strategy)[j]).0 < inputs.len() by {
            if j < old_sl.len() {
                assert(slots(inputs, strategy)[j] == old_sl[j]);
            } else {
                assert(slots(inputs, strategy)[j] == extra[j - old_sl.len()]);
            }
        }
    }
}

/// Builds the candidates of every stock that passes the screen and orders them by final
/// score, highest first, equal scores keeping their order.
pub fn build_candidates(date: Date, strategy: &StrategySection, inputs: &Vec<StockInputs>) -> (r:
    Vec<TradeCandidate>)
    requires
        forall|i: int|
            0 <= i < inputs@.len() ==> stock_computable(
                (#[trigger] inputs@[i]).flows@,
                inputs@[i].ohlcv@,
                fin_ref(&inputs@[i].financial),
                *strategy,
            ),
    ensures
        sorted_by_score_desc(r@),
        exists|collected: Seq<TradeCandidate>, perm: Seq<int>|
            built_from(collected, date, inputs@, *strategy) && is_stable_reordering(
                r@,
                collected,
                perm,
            ),
{
    let mut collected: Vec<TradeCandidate> = Vec::new();
    let mut i: usize = 0;
    while i < inputs.len()
        invariant
            i <= inputs@.len(),
            forall|k: int|
                0 <= k < inputs@.len() ==> stock_computable(
                    (#[trigger] inputs@[k]).flows@,
                    inputs@[k].ohlcv@,
                    fin_ref(&inputs@[k].financial),
                    *strategy,
                ),
            built_from(collected@, date, inputs@.take(i as int), *strategy),
            all_wf(collected@),
        decreases inputs.len() - i,
    {
        let ghost before = collected@;
        let ghost prefix = inputs@.take(i as int);
        let ghost next = inputs@.take(i + 1);
        assert(next.drop_last() =~= prefix);
        assert(next[i as int] == inputs@[i as int]);
        proof {
            lemma_slots_in_range(prefix, *strategy);
        }
        match build_stock_candidates(date, strategy, &inputs[i]) {
            Ok(mut built) => {
                let ghost new_ones = built@;
                collected.append(&mut built);
                proof {
                    let sl = slots(next, *strategy);
                    let old_sl = slots(prefix, *strategy);
                    assert(sl =~= old_sl + enabled_strategies(*strategy).map_values(
                        |st: StrategyType| (i as int, st),
                    ));
                    assert forall|j: int| 0 <= j < collected@.len() implies {
                        let input = #[trigger] next[sl[j].0];
                        candidate_matches(
                            collected@[j],
                            date,
                            input.stock,
                            input.flows@,
                            input.ohlcv@,
                            fin_ref(&input.financial),
                            input.market_cap,
                            sl[j].1,
                        )
                    } by {
                        if j < before.len() {
                            assert(collected@[j] == before[j]);
                            assert(sl[j] == old_sl[j]);
                            assert(next[sl[j].0] == prefix[sl[j].0]);
                        } else {
                            assert(collected@[j] == new_ones[j - before.len()]);
                            assert(sl[j] == (i as int, enabled_strategies(*strategy)[j - before.len()]));
                        }
                    }
                    assert forall|j: int| 0 <= j < collected@.len() implies (
                    #[trigger] collected@[j]).wf() by {
                        if j < before.len() {
                            assert(collected@[j] == before[j]);
                        } else {
                            assert(collected@[j] == new_ones[j - before.len()]);
                        }
                    }
                }
            },
            Err(_) => {
                proof {
                    let sl = slots(next, *strategy);
                    let old_sl = slots(prefix, *strategy);
                    assert(sl =~= old_sl);
                    assert forall|j: int| 0 <= j < collected@.len() implies {
                        let input = #[trigger] next[sl[j].0];
                        candidate_matches(
                            collected@[j],
                            date,
                            input.stock,
                            input.flows@,
                            input.ohlcv@,
                            fin_ref(&input.financial),
                            input.market_cap,
                            sl[j].1,
                        )
                    } by {
                        assert(next[sl[j].0] == prefix[sl[j].0]);
                    }
                }
            },
        }
        i = i + 1;
    }
    assert(inputs@.take(inputs@.len() as int) =~= inputs@);
    let ghost all = collected@;
    let sorted = sort_by_final_score(collected);
    proof {
        let perm = choose|perm: Seq<int>| is_stable_reordering(sorted@, all, perm);
        assert(built_from(all, date, inputs@, *strategy) && is_stable_reordering(sorted@, all, perm));
    }
    sorted
}

proof fn lemma_slots_pass(inputs: Seq<StockInputs>, strategy: StrategySection)
    ensures
        forall|j: int|
            0 <= j < slots(inputs, strategy).len() ==> passes(
                inputs[(#[trigger] slots(inputs, strategy)[j]).0],
                strategy,
            ),
    decreases inputs.len(),
{
    if inputs.len() > 0 {
        let k = inputs.len() - 1;
        lemma_slots_pass(inputs.drop_last(), strategy);
        lemma_slots_in_range(inputs.drop_last(), strategy);
        let old_sl = slots(inputs.drop_last(), strategy);
        let extra = if passes(inputs[k], strategy) {
            enabled_strategies(strategy).map_values(|st: StrategyType| (k, st))
        } else {
            Seq::empty()
        };
        assert(slots(inputs, strategy) == old_sl + extra);
        assert forall|j: int| 0 <= j < slots(inputs, strategy).len() implies passes(
            inputs[(#[trigger] slots(inputs, strategy)[j]).0],
            strategy,
        ) by {
            if j < old_sl.len() {
                assert(slots(inputs, strategy)[j] == old_sl[j]);
                assert(inputs.drop_last()[old_sl[j].0] == inputs[old_sl[j].0]);
            } else {
                assert(slots(inputs, strategy)[j] == extra[j - old_sl.len()]);
            }
        }
    }
}

/// Every candidate the builder returns comes from a stock of the input that passed the
/// whole screen; in particular no excluded stock (administrative issue, halt, warning,
/// preferred share, ETF, ETN, SPAC) ever becomes a candidate.
pub proof fn candidates_pass_screen(
    date: Date,
    strategy: StrategySection,
    inputs: Seq<StockInputs>,
    r: Seq<TradeCandidate>,
)
    requires
        exists|collected: Seq<TradeCandidate>, perm: Seq<int>|
            built_from(collected, date, inputs, strategy) && is_stable_reordering(r, collected, perm),
    ensures
        forall|k: int|
            0 <= k < r.len() ==> exists|i: int|
                0 <= i < inputs.len() && passes(inputs[i], strategy) && exclusion_reason(
                    inputs[i].stock,
                ) is None && (#[trigger] r[k]).stock_code@ == inputs[i].stock.stock_code@,
{
    let (collected, perm) = choose|collected: Seq<TradeCandidate>, perm: Seq<int>|
        built_from(collected, date, inputs, strategy) && is_stable_reordering(r, collected, perm);
    lemma_slots_in_range(inputs, strategy);
    lemma_slots_pass(inputs, strategy);
    let sl = slots(inputs, strategy);
    assert forall|k: int| 0 <= k < r.len() implies exists|i: int|
        0 <= i < inputs.len() && passes(inputs[i], strategy) && exclusion_reason(inputs[i].stock) is None
            && (#[trigger] r[k]).stock_code@ == inputs[i].stock.stock_code@ by {
        let j = perm[k];
        assert(r[k] == collected[j]);
        let i = sl[j].0;
        assert(0 <= i < inputs.len());
        assert(passes(inputs[i], strategy));
        let input = inputs[i];
        assert(candidate_matches(
            collected[j],
            date,
            input.stock,
            input.flows@,
            input.ohlcv@,
            fin_ref(&input.financial),
            input.market_cap,
            sl[j].1,
        ));
    }
}


/// A built candidate carries its stock's code and name, the day, its strategy, the ready
/// status, the number of institution and foreign buying days, the institution five-day net
/// buying (the sum of `institution_net_buy_amt` over the flows), the foreign five-day net
/// buying (the sum of `foreign_net_buy_amt`), their total, the market capitalisation and
/// the last candle's close, high and low.
pub proof fn built_candidate_carries_its_figures(
    c: TradeCandidate,
    date: Date,
    stock: StockBasic,
    flows: Seq<InvestorFlowDaily>,
    ohlcv: Seq<OhlcvDaily>,
    financial: Option<&FinancialRatio>,
    market_cap: Option<i64>,
    strategy_type: StrategyType,
)
    requires
        candidate_matches(c, date, stock, flows, ohlcv, financial, market_cap, strategy_type),
    ensures
        c.trade_date == date,
        c.stock_code@ == stock.stock_code@,
        c.stock_name@ == stock.stock_name@,
        c.strategy_type == strategy_type,
        c.status == CandidateStatus::Ready,
        c.inst_net_buy_amt_5d == flow_total(flows, true),
        c.foreign_net_buy_amt_5d == flow_total(flows, false),
        c.total_net_buy_amt_5d == flow_total(flows, true) + flow_total(flows, false),
        c.inst_buy_days == buying_days(flows, true) as i32,
        c.foreign_buy_days == buying_days(flows, false) as i32,
        c.market_cap == market_cap,
        c.prev_close == ohlcv[ohlcv.len() - 1].close_price,
        c.prev_high == ohlcv[ohlcv.len() - 1].high_price,
        c.prev_low == ohlcv[ohlcv.len() - 1].low_price,
        c.ma5 == moving_average_of(ohlcv, 5),
        c.ma20 == moving_average_of(ohlcv, 20),
        is_plain_int(
            c.supply_score,
            clamp_int(
                supply_points(
                    buying_days(flows, true) as i32 as int,
                    buying_days(flows, false) as i32 as int,
                    flow_total(flows, true) + flow_total(flows, false),
                    market_cap,
                ),
            ),
        ),
        is_plain_int(c.liquidity_score, clamp_int(liquidity_points(ohlcv))),
        is_plain_int(
            c.trend_score,
            clamp_int(
                trend_points(ohlcv, moving_average_of(ohlcv, 5), moving_average_of(ohlcv, 20)),
            ),
        ),
        is_plain_int(
            c.risk_score,
            clamp_int(
                risk_points(
                    financial,
                    Some(&ohlcv[ohlcv.len() - 1]),
                    Some(&ohlcv[ohlcv.len() - 2]),
                ),
            ),
        ),
        c.final_score == clamp_of(
            weighted_sum(c.supply_score, c.liquidity_score, c.trend_score, c.risk_score),
        ).rounded(2),
        c.breakout_price == Some(
            dec_of(rust_decimal_mul(ohlcv[ohlcv.len() - 1].high_price@, lit_dec(1001, 3)@)),
        ),
        c.stop_loss_price == Some(
            dec_of(rust_decimal_mul(ohlcv[ohlcv.len() - 1].close_price@, lit_dec(98, 2)@)),
        ),
        c.target_price == Some(
            dec_of(rust_decimal_mul(ohlcv[ohlcv.len() - 1].close_price@, lit_dec(103, 2)@)),
        ),
        c.pullback_price is Some <==> moving_average_of(ohlcv, 5) is Some,
        moving_average_of(ohlcv, 5) matches Some(m) ==> {
            let floor = dec_of(
                rust_decimal_mul(ohlcv[ohlcv.len() - 1].close_price@, lit_dec(985, 3)@),
            );
            &&& m.le(c.pullback_price->0) && floor.le(c.pullback_price->0)
            &&& c.pullback_price->0 == m || c.pullback_price->0 == floor
        },
{
    lemma_flow_totals(flows);
}


/// Every candidate the builder returns belongs to a stock of the input whose institutions
/// and foreigners both bought more than they sold over its flows, and carries exactly those
/// two five-day totals: the institution total as `inst_net_buy_amt_5d` and the foreign
/// total as `foreign_net_buy_amt_5d`.
pub proof fn candidates_carry_their_net_buying(
    date: Date,
    strategy: StrategySection,
    inputs: Seq<StockInputs>,
    r: Seq<TradeCandidate>,
)
    requires
        exists|collected: Seq<TradeCandidate>, perm: Seq<int>|
            built_from(collected, date, inputs, strategy) && is_stable_reordering(r, collected, perm),
    ensures
        forall|k: int|
            0 <= k < r.len() ==> exists|i: int|
                0 <= i < inputs.len() && (#[trigger] r[k]).stock_code@ == inputs[i].stock.stock_code@
                    && r[k].inst_net_buy_amt_5d == flow_total(inputs[i].flows@, true)
                    && r[k].foreign_net_buy_amt_5d == flow_total(inputs[i].flows@, false)
                    && flow_total(inputs[i].flows@, true) > 0
                    && flow_total(inputs[i].flows@, false) > 0,
{
    let (collected, perm) = choose|collected: Seq<TradeCandidate>, perm: Seq<int>|
        built_from(collected, date, inputs, strategy) && is_stable_reordering(r, collected, perm);
    lemma_slots_in_range(inputs, strategy);
    lemma_slots_pass(inputs, strategy);
    let sl = slots(inputs, strategy);
    assert forall|k: int| 0 <= k < r.len() implies exists|i: int|
        0 <= i < inputs.len() && (#[trigger] r[k]).stock_code@ == inputs[i].stock.stock_code@
            && r[k].inst_net_buy_amt_5d == flow_total(inputs[i].flows@, true)
            && r[k].foreign_net_buy_amt_5d == flow_total(inputs[i].flows@, false)
            && flow_total(inputs[i].flows@, true) > 0 && flow_total(inputs[i].flows@, false) > 0 by {
        let j = perm[k];
        assert(r[k] == collected[j]);
        let i = sl[j].0;
        assert(0 <= i < inputs.len());
        assert(passes(inputs[i], strategy));
        let input = inputs[i];
        assert(candidate_matches(
            collected[j],
            date,
            input.stock,
            input.flows@,
            input.ohlcv@,
            fin_ref(&input.financial),
            input.market_cap,
            sl[j].1,
        ));
        built_candidate_carries_its_figures(
            collected[j],
            date,
            input.stock,
            input.flows@,
            input.ohlcv@,
            fin_ref(&input.financial),
            input.market_cap,
            sl[j].1,
        );
        screen_passes_exactly_when(
            input.stock,
            input.flows@,
            input.ohlcv@,
            fin_ref(&input.financial),
            input.market_cap,
            strategy,
        );
    }
}


/// A passing stock gets one candidate per enabled strategy and none for a disabled one:
/// breakout first, then pullback, then opening.
pub proof fn one_candidate_per_enabled_strategy(s: StrategySection)
    ensures
        enabled_strategies(s).len() == (if s.enable_breakout_strategy {
            1int
        } else {
            0int
        }) + (if s.enable_pullback_strategy {
            1int
        } else {
            0int
        }) + (if s.enable_opening_strategy {
            1int
        } else {
            0int
        }),
        enabled_strategies(s).contains(StrategyType::Breakout) <==> s.enable_breakout_strategy,
        enabled_strategies(s).contains(StrategyType::Pullback) <==> s.enable_pullback_strategy,
        enabled_strategies(s).contains(StrategyType::Opening) <==> s.enable_opening_strategy,
        s.enable_breakout_strategy ==> enabled_strategies(s)[0] == StrategyType::Breakout,
        s.enable_opening_strategy ==> enabled_strategies(s).last() == StrategyType::Opening,
{
    let b: Seq<StrategyType> = if s.enable_breakout_strategy {
        seq![StrategyType::Breakout]
    } else {
        Seq::empty()
    };
    let p: Seq<StrategyType> = if s.enable_pullback_strategy {
        seq![StrategyType::Pullback]
    } else {
        Seq::empty()
    };
    let o: Seq<StrategyType> = if s.enable_opening_strategy {
        seq![StrategyType::Opening]
    } else {
        Seq::empty()
    };
    let e = enabled_strategies(s);
    assert(e == b + p + o);
    assert(s.enable_breakout_strategy ==> e[0] == StrategyType::Breakout);
    if s.enable_breakout_strategy {
        assert(e.contains(StrategyType::Breakout));
    }
    if s.enable_pullback_strategy {
        assert(e[b.len() as int] == StrategyType::Pullback);
        assert(e.contains(StrategyType::Pullback));
    }
    if s.enable_opening_strategy {
        assert(e[e.len() - 1] == StrategyType::Opening);
        assert(e.contains(StrategyType::Opening));
    }
    assert(e.contains(StrategyType::Breakout) ==> s.enable_breakout_strategy) by {
        if e.contains(StrategyType::Breakout) {
            let i = choose|i: int| 0 <= i < e.len() && e[i] == StrategyType::Breakout;
            if !s.enable_breakout_strategy {
                assert(e == p + o);
            }
        }
    }
    assert(e.contains(StrategyType::Pullback) ==> s.enable_pullback_strategy) by {
        if e.contains(StrategyType::Pullback) {
            let i = choose|i: int| 0 <= i < e.len() && e[i] == StrategyType::Pullback;
            if !s.enable_pullback_strategy {
                assert(e == b + o);
            }
        }
    }
    assert(e.contains(StrategyType::Opening) ==> s.enable_opening_strategy) by {
        if e.contains(StrategyType::Opening) {
            let i = choose|i: int| 0 <= i < e.len() && e[i] == StrategyType::Opening;
            if !s.enable_opening_strategy {
                assert(e =~= b + p);
            }
        }
    }
}

} // verus!
