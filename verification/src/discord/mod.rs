//! Discord messages: the client and the text of the reports.
pub mod client;
pub mod models;

pub use client::DiscordClient;

use vstd::prelude::*;
use crate::clock::{chrono_date_text, Date};
use crate::decimal::{decimal_text, Dec};
use crate::domain::candidate::strategy_text;
use crate::domain::{StrategyType, TradeCandidate};
use crate::strategy::scoring::trunc_div;
use crate::text::{count_to_text, int_text, int_to_text, join, joined, views};

verus! {

/// At most this many candidates are listed in a report.
pub const REPORT_LIMIT: usize = 10usize;

/// Won per unit of 억 (10^8 won).
pub const EOK: i64 = 100_000_000i64;

/// The lines that list candidate `c` as entry number `idx + 1`.
pub open spec fn candidate_entry(c: TradeCandidate, idx: int) -> Seq<Seq<char>> {
    seq![
        int_text(idx + 1) + ". "@ + c.stock_code@ + " "@ + c.stock_name@,
        "   점수: "@ + decimal_text(c.final_score.rounded(1)),
        "   기관 5일 순매수: "@ + int_text(trunc_div(c.inst_net_buy_amt_5d as int, EOK as int)) + "억"@,
        "   외국인 5일 순매수: "@ + int_text(trunc_div(c.foreign_net_buy_amt_5d as int, EOK as int))
            + "억"@,
        "   전략: "@ + strategy_text(c.strategy_type),
        Seq::<char>::empty(),
    ]
}

/// The entries of the first `n` candidates.
pub open spec fn candidate_entries(cs: Seq<TradeCandidate>, n: nat) -> Seq<Seq<char>>
    decreases n,
{
    if n == 0 {
        Seq::empty()
    } else {
        candidate_entries(cs, (n - 1) as nat) + candidate_entry(cs[n - 1], n - 1)
    }
}

/// The lines of the report on the candidates built for `date`: a header, the first ten
/// candidates, and a notice when there are none.
pub open spec fn candidate_report_lines(date: Date, cs: Seq<TradeCandidate>) -> Seq<Seq<char>> {
    let shown: nat = if cs.len() < REPORT_LIMIT { cs.len() } else { REPORT_LIMIT as nat };
    seq![
        "[후보 생성 완료]"@,
        "기준일: "@ + chrono_date_text(date.days_from_ce as int),
        "후보 수: "@ + int_text(cs.len() as int) + "개"@,
        Seq::<char>::empty(),
    ] + candidate_entries(cs, shown) + if cs.len() == 0 {
        seq!["조건을 통과한 후보가 없습니다."@]
    } else {
        Seq::<Seq<char>>::empty()
    }
}

fn text_of(s: &str) -> (r: String)
    ensures
        r@ == s@,
{
    String::from_str(s)
}

/// The report of the candidates built for `date`, one line per fact, as sent to Discord.
pub fn format_candidate_report(date: Date, candidates: &[TradeCandidate]) -> (r: String)
    requires
        date.wf(),
        forall|i: int| 0 <= i < candidates@.len() ==> (#[trigger] candidates@[i]).wf(),
    ensures
        r@ == joined(candidate_report_lines(date, candidates@), "\n"@),
{
    let mut lines: Vec<String> = Vec::new();
    lines.push(text_of("[후보 생성 완료]"));
    let mut l = text_of("기준일: ");
    l.append(date.to_text().as_str());
    lines.push(l);
    let mut l = text_of("후보 수: ");
    l.append(count_to_text(candidates.len()).as_str());
    l.append("개");
    lines.push(l);
    lines.push(String::new());
    let shown: usize = if candidates.len() < REPORT_LIMIT { candidates.len() } else { REPORT_LIMIT };
    let ghost head = seq![
        "[후보 생성 완료]"@,
        "기준일: "@ + chrono_date_text(date.days_from_ce as int),
        "후보 수: "@ + int_text(candidates@.len() as int) + "개"@,
        Seq::<char>::empty(),
    ];
    assert(views(lines@) =~= head);
    let mut idx: usize = 0;
    while idx < shown
        invariant
            idx <= shown,
            shown <= candidates@.len(),
            shown <= REPORT_LIMIT,
            forall|i: int| 0 <= i < candidates@.len() ==> (#[trigger] candidates@[i]).wf(),
            views(lines@) == head + candidate_entries(candidates@, idx as nat),
        decreases shown - idx,
    {
        let c = &candidates[idx];
        let ghost before = views(lines@);
        let mut l = count_to_text(idx + 1);
        l.append(". ");
        l.append(c.stock_code.as_str());
        l.append(" ");
        l.append(c.stock_name.as_str());
        lines.push(l);
        let mut l = text_of("   점수: ");
        l.append(c.final_score.round_dp(1).to_text().as_str());
        lines.push(l);
        let mut l = text_of("   기관 5일 순매수: ");
        l.append(int_to_text(c.inst_net_buy_amt_5d / EOK).as_str());
        l.append("억");
        lines.push(l);
        let mut l = text_of("   외국인 5일 순매수: ");
        l.append(int_to_text(c.foreign_net_buy_amt_5d / EOK).as_str());
        l.append("억");
        lines.push(l);
        let mut l = text_of("   전략: ");
        l.append(c.strategy_type.as_str());
        lines.push(l);
        lines.push(String::new());
        assert(views(lines@) =~= before + candidate_entry(candidates@[idx as int], idx as int));
        idx = idx + 1;
    }
    if candidates.len() == 0 {
        lines.push(text_of("조건을 통과한 후보가 없습니다."));
    }
    assert(views(lines@) =~= candidate_report_lines(date, candidates@));
    join(&lines, "\n")
}

/// Each line with `- ` in front.
pub open spec fn bulleted(lines: Seq<Seq<char>>) -> Seq<Seq<char>>
    decreases lines.len(),
{
    if lines.len() == 0 {
        Seq::empty()
    } else {
        bulleted(lines.drop_last()).push("- "@ + lines.last())
    }
}

/// The lines of a dry-run buy signal report.
pub open spec fn signal_report_lines(
    signal_time: Seq<char>,
    stock_code: Seq<char>,
    stock_name: Seq<char>,
    strategy_type: StrategyType,
    current_price: Dec,
    prev_high: Dec,
    final_score: Dec,
    reasons: Seq<Seq<char>>,
) -> Seq<Seq<char>> {
    seq![
        "[DRY_RUN 매수 신호]"@,
        "시간: "@ + signal_time,
        "종목: "@ + stock_code + " "@ + stock_name,
        "전략: "@ + strategy_text(strategy_type),
        "현재가: "@ + decimal_text(current_price.rounded(0)),
        "전일고가: "@ + decimal_text(prev_high.rounded(0)),
        "final_score: "@ + decimal_text(final_score.rounded(1)),
        Seq::<char>::empty(),
        "사유:"@,
    ] + bulleted(reasons) + seq![
        Seq::<char>::empty(),
        "상태:"@,
        "실제 주문 없음. DRY_RUN 기록만 저장."@,
    ]
}

/// The report of a dry-run buy signal, as sent to Discord.
pub fn format_signal_report(
    signal_time: &str,
    stock_code: &str,
    stock_name: &str,
    strategy_type: StrategyType,
    current_price: Dec,
    prev_high: Dec,
    final_score: Dec,
    reasons: &[String],
) -> (r: String)
    requires
        current_price.wf(),
        prev_high.wf(),
        final_score.wf(),
    ensures
        r@ == joined(
            signal_report_lines(
                signal_time@,
                stock_code@,
                stock_name@,
                strategy_type,
                current_price,
                prev_high,
                final_score,
                views(reasons@),
            ),
            "\n"@,
        ),
{
    let mut lines: Vec<String> = Vec::new();
    lines.push(text_of("[DRY_RUN 매수 신호]"));
    let mut l = text_of("시간: ");
    l.append(signal_time);
    lines.push(l);
    let mut l = text_of("종목: ");
    l.append(stock_code);
    l.append(" ");
    l.append(stock_name);
    lines.push(l);
    let mut l = text_of("전략: ");
    l.append(strategy_type.as_str());
    lines.push(l);
    let mut l = text_of("현재가: ");
    l.append(current_price.round_dp(0).to_text().as_str());
    lines.push(l);
    let mut l = text_of("전일고가: ");
    l.append(prev_high.round_dp(0).to_text().as_str());
    lines.push(l);
    let mut l = text_of("final_score: ");
    l.append(final_score.round_dp(1).to_text().as_str());
    lines.push(l);
    lines.push(String::new());
    lines.push(text_of("사유:"));
    let ghost head = views(lines@);
    assert(head =~= seq![
        "[DRY_RUN 매수 신호]"@,
        "시간: "@ + signal_time@,
        "종목: "@ + stock_code@ + " "@ + stock_name@,
        "전략: "@ + strategy_text(strategy_type),
        "현재가: "@ + decimal_text(current_price.rounded(0)),
        "전일고가: "@ + decimal_text(prev_high.rounded(0)),
        "final_score: "@ + decimal_text(final_score.rounded(1)),
        Seq::<char>::empty(),
        "사유:"@,
    ]);
    let ghost rs = views(reasons@);
    let mut i: usize = 0;
    while i < reasons.len()
        invariant
            i <= reasons@.len(),
            rs == views(reasons@),
            views(lines@) == head + bulleted(rs.take(i as int)),
        decreases reasons.len() - i,
    {
        let ghost before = views(lines@);
        let mut l = text_of("- ");
        l.append(reasons[i].as_str());
        lines.push(l);
        assert(rs.take(i + 1).drop_last() =~= rs.take(i as int));
        assert(views(lines@) =~= before.push("- "@ + reasons@[i as int]@));
        i = i + 1;
    }
    assert(rs.take(reasons@.len() as int) =~= rs);
    lines.push(String::new());
    lines.push(text_of("상태:"));
    lines.push(text_of("실제 주문 없음. DRY_RUN 기록만 저장."));
    assert(views(lines@) =~= signal_report_lines(
        signal_time@,
        stock_code@,
        stock_name@,
        strategy_type,
        current_price,
        prev_high,
        final_score,
        rs,
    ));
    join(&lines, "\n")
}

proof fn lemma_entries_len(cs: Seq<TradeCandidate>, n: nat)
    ensures
        candidate_entries(cs, n).len() == 6 * n,
    decreases n,
{
    if n > 0 {
        lemma_entries_len(cs, (n - 1) as nat);
    }
}

/// A candidate report lists at most ten candidates, six lines each, after a header of
/// four lines; an empty list gets one line saying so.
pub proof fn candidate_report_size(date: Date, cs: Seq<TradeCandidate>)
    ensures
        candidate_report_lines(date, cs).len() == 4 + 6 * (if cs.len() < 10 {
            cs.len() as int
        } else {
            10
        }) + (if cs.len() == 0 {
            1int
        } else {
            0
        }),
{
    let shown: nat = if cs.len() < REPORT_LIMIT { cs.len() } else { REPORT_LIMIT as nat };
    lemma_entries_len(cs, shown);
}

} // verus!
