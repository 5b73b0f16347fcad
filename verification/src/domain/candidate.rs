//! Daily trade candidates and their strategies and states.
use vstd::prelude::*;
use crate::clock::Date;
use crate::decimal::Dec;
use crate::text::{ascii_lower, ascii_upper, lower_text, upper_text, uppercase_equals};

verus! {

/// A stock that passed the screen on one day, with its scores and reference prices.
#[derive(Clone, Debug)]
pub struct TradeCandidate {
    pub trade_date: Date,
    pub stock_code: String,
    pub stock_name: String,
    pub supply_score: Dec,
    pub liquidity_score: Dec,
    pub trend_score: Dec,
    pub risk_score: Dec,
    pub final_score: Dec,
    pub inst_buy_days: i32,
    pub foreign_buy_days: i32,
    pub inst_net_buy_amt_5d: i64,
    pub foreign_net_buy_amt_5d: i64,
    pub total_net_buy_amt_5d: i64,
    pub market_cap: Option<i64>,
    pub avg_trade_amount_20d: Option<i64>,
    pub prev_close: Dec,
    pub prev_high: Dec,
    pub prev_low: Dec,
    pub ma5: Option<Dec>,
    pub ma20: Option<Dec>,
    pub breakout_price: Option<Dec>,
    pub pullback_price: Option<Dec>,
    pub stop_loss_price: Option<Dec>,
    pub target_price: Option<Dec>,
    pub strategy_type: StrategyType,
    pub status: CandidateStatus,
}

impl TradeCandidate {
    /// All scores and prices are decimals.
    pub open spec fn wf(self) -> bool {
        &&& self.supply_score.wf()
        &&& self.liquidity_score.wf()
        &&& self.trend_score.wf()
        &&& self.risk_score.wf()
        &&& self.final_score.wf()
        &&& self.prev_close.wf()
        &&& self.prev_high.wf()
        &&& self.prev_low.wf()
        &&& self.ma5 matches Some(v) ==> v.wf()
        &&& self.ma20 matches Some(v) ==> v.wf()
        &&& self.breakout_price matches Some(v) ==> v.wf()
        &&& self.pullback_price matches Some(v) ==> v.wf()
        &&& self.stop_loss_price matches Some(v) ==> v.wf()
        &&& self.target_price matches Some(v) ==> v.wf()
    }
}

/// The intraday entry rule a candidate is watched with.
#[derive(Clone, Copy, Debug, PartialEq, Eq, Structural)]
pub enum StrategyType {
    Opening,
    Pullback,
    Breakout,
}

/// The stored name of a strategy.
pub open spec fn strategy_text(s: StrategyType) -> Seq<char> {
    match s {
        StrategyType::Opening => "OPENING"@,
        StrategyType::Pullback => "PULLBACK"@,
        StrategyType::Breakout => "BREAKOUT"@,
    }
}

/// What parsing a strategy name gives: names match without regard to ASCII case.
pub open spec fn parse_strategy(value: Seq<char>) -> Result<StrategyType, Seq<char>> {
    if upper_text(value) == "OPENING"@ {
        Ok(StrategyType::Opening)
    } else if upper_text(value) == "PULLBACK"@ {
        Ok(StrategyType::Pullback)
    } else if upper_text(value) == "BREAKOUT"@ {
        Ok(StrategyType::Breakout)
    } else {
        Err("unsupported strategy type: "@ + value)
    }
}

impl StrategyType {
    /// The stored name, as its `Display` writes it.
    pub fn as_str(&self) -> (r: &'static str)
        ensures
            r@ == strategy_text(*self),
    {
        match self {
            StrategyType::Opening => "OPENING",
            StrategyType::Pullback => "PULLBACK",
            StrategyType::Breakout => "BREAKOUT",
        }
    }

    /// Parses a stored name, ignoring ASCII case.
    pub fn from_str(value: &str) -> (r: Result<StrategyType, String>)
        ensures
            r is Ok ==> parse_strategy(value@) == Ok::<StrategyType, Seq<char>>(r->Ok_0),
            r is Err ==> parse_strategy(value@) == Err::<StrategyType, Seq<char>>(r->Err_0@),
    {
        if uppercase_equals(value, "OPENING") {
            Ok(StrategyType::Opening)
        } else if uppercase_equals(value, "PULLBACK") {
            Ok(StrategyType::Pullback)
        } else if uppercase_equals(value, "BREAKOUT") {
            Ok(StrategyType::Breakout)
        } else {
            let mut message = String::from_str("unsupported strategy type: ");
            message.append(value);
            Err(message)
        }
    }
}

/// Where a candidate stands in its life cycle.
#[derive(Clone, Copy, Debug, PartialEq, Eq, Structural)]
pub enum CandidateStatus {
    Ready,
    Triggered,
    Ordered,
    Filled,
    Skipped,
    Expired,
}

/// The stored name of a candidate status.
pub open spec fn status_text(s: CandidateStatus) -> Seq<char> {
    match s {
        CandidateStatus::Ready => "READY"@,
        CandidateStatus::Triggered => "TRIGGERED"@,
        CandidateStatus::Ordered => "ORDERED"@,
        CandidateStatus::Filled => "FILLED"@,
        CandidateStatus::Skipped => "SKIPPED"@,
        CandidateStatus::Expired => "EXPIRED"@,
    }
}

/// What parsing a status name gives: names match without regard to ASCII case.
pub open spec fn parse_status(value: Seq<char>) -> Result<CandidateStatus, Seq<char>> {
    let u = upper_text(value);
    if u == "READY"@ {
        Ok(CandidateStatus::Ready)
    } else if u == "TRIGGERED"@ {
        Ok(CandidateStatus::Triggered)
    } else if u == "ORDERED"@ {
        Ok(CandidateStatus::Ordered)
    } else if u == "FILLED"@ {
        Ok(CandidateStatus::Filled)
    } else if u == "SKIPPED"@ {
        Ok(CandidateStatus::Skipped)
    } else if u == "EXPIRED"@ {
        Ok(CandidateStatus::Expired)
    } else {
        Err("unsupported candidate status: "@ + value)
    }
}

impl CandidateStatus {
    /// The stored name, as its `Display` writes it.
    pub fn as_str(&self) -> (r: &'static str)
        ensures
            r@ == status_text(*self),
    {
        match self {
            CandidateStatus::Ready => "READY",
            CandidateStatus::Triggered => "TRIGGERED",
            CandidateStatus::Ordered => "ORDERED",
            CandidateStatus::Filled => "FILLED",
            CandidateStatus::Skipped => "SKIPPED",
            CandidateStatus::Expired => "EXPIRED",
        }
    }

    /// Parses a stored name, ignoring ASCII case.
    pub fn from_str(value: &str) -> (r: Result<CandidateStatus, String>)
        ensures
            r is Ok ==> parse_status(value@) == Ok::<CandidateStatus, Seq<char>>(r->Ok_0),
            r is Err ==> parse_status(value@) == Err::<CandidateStatus, Seq<char>>(r->Err_0@),
    {
        if uppercase_equals(value, "READY") {
            Ok(CandidateStatus::Ready)
        } else if uppercase_equals(value, "TRIGGERED") {
            Ok(CandidateStatus::Triggered)
        } else if uppercase_equals(value, "ORDERED") {
            Ok(CandidateStatus::Ordered)
        } else if uppercase_equals(value, "FILLED") {
            Ok(CandidateStatus::Filled)
        } else if uppercase_equals(value, "SKIPPED") {
            Ok(CandidateStatus::Skipped)
        } else if uppercase_equals(value, "EXPIRED") {
            Ok(CandidateStatus::Expired)
        } else {
            let mut message = String::from_str("unsupported candidate status: ");
            message.append(value);
            Err(message)
        }
    }
}

/// Every stored strategy name parses back to its strategy, in lower case too.
pub proof fn strategy_name_round_trip(s: StrategyType)
    ensures
        parse_strategy(strategy_text(s)) == Ok::<StrategyType, Seq<char>>(s),
        parse_strategy(lower_text(strategy_text(s))) == Ok::<StrategyType, Seq<char>>(s),
{
    lemma_upper_of_lower(strategy_text(s));
    reveal_strlit("OPENING");
    reveal_strlit("PULLBACK");
    reveal_strlit("BREAKOUT");
    assert(upper_text("OPENING"@) =~= "OPENING"@);
    assert(upper_text("PULLBACK"@) =~= "PULLBACK"@);
    assert(upper_text("BREAKOUT"@) =~= "BREAKOUT"@);
    assert("PULLBACK"@ != "OPENING"@);
    assert("BREAKOUT"@ != "OPENING"@);
    assert("BREAKOUT"@[0] != "PULLBACK"@[0]);
}

/// Every stored status name parses back to its status, in lower case too.
pub proof fn status_name_round_trip(s: CandidateStatus)
    ensures
        parse_status(status_text(s)) == Ok::<CandidateStatus, Seq<char>>(s),
        parse_status(lower_text(status_text(s))) == Ok::<CandidateStatus, Seq<char>>(s),
{
    lemma_upper_of_lower(status_text(s));
    reveal_strlit("READY");
    reveal_strlit("TRIGGERED");
    reveal_strlit("ORDERED");
    reveal_strlit("FILLED");
    reveal_strlit("SKIPPED");
    reveal_strlit("EXPIRED");
    assert(upper_text("READY"@) =~= "READY"@);
    assert(upper_text("TRIGGERED"@) =~= "TRIGGERED"@);
    assert(upper_text("ORDERED"@) =~= "ORDERED"@);
    assert(upper_text("FILLED"@) =~= "FILLED"@);
    assert(upper_text("SKIPPED"@) =~= "SKIPPED"@);
    assert(upper_text("EXPIRED"@) =~= "EXPIRED"@);
    assert("TRIGGERED"@ != "READY"@);
    assert("ORDERED"@ != "READY"@);
    assert("FILLED"@ != "READY"@);
    assert("SKIPPED"@ != "READY"@);
    assert("EXPIRED"@ != "READY"@);
    assert("ORDERED"@ != "TRIGGERED"@);
    assert("FILLED"@ != "TRIGGERED"@);
    assert("SKIPPED"@ != "TRIGGERED"@);
    assert("EXPIRED"@ != "TRIGGERED"@);
    assert("FILLED"@ != "ORDERED"@);
    assert("SKIPPED"@[0] != "ORDERED"@[0]);
    assert("EXPIRED"@[0] != "ORDERED"@[0]);
    assert("SKIPPED"@ != "FILLED"@);
    assert("EXPIRED"@ != "FILLED"@);
    assert("EXPIRED"@[0] != "SKIPPED"@[0]);
}

/// Folding to upper case after lower case is folding to upper case.
proof fn lemma_upper_of_lower(v: Seq<char>)
    ensures
        upper_text(lower_text(v)) == upper_text(v),
{
    assert forall|i: int| 0 <= i < v.len() implies upper_text(lower_text(v))[i] == upper_text(
        v,
    )[i] by {
        let c = v[i];
        assert(ascii_upper(ascii_lower(c)) == ascii_upper(c));
    }
    assert(upper_text(lower_text(v)) =~= upper_text(v));
}
} // verus!
