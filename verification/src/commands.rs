//! The bot's commands and the messages each one sends around its work.
use vstd::prelude::*;
use crate::clock::{chrono_date_text, Date};
use crate::config::{mode_text, AppConfig, TradingMode};
use crate::text::{join, joined, views};

verus! {

/// What the bot is asked to do; a missing date means today.
#[derive(Clone, Copy, Debug)]
pub enum Commands {
    CollectDaily { date: Option<Date> },
    BuildCandidates { date: Option<Date> },
    Monitor { date: Option<Date> },
    Report { date: Option<Date> },
    Backtest { from: Date, to: Date },
    HealthCheck,
}

/// `true` or `false`, as `bool` displays.
pub open spec fn flag_text(b: bool) -> Seq<char> {
    if b {
        "true"@
    } else {
        "false"@
    }
}

fn flag_str(b: bool) -> (r: &'static str)
    ensures
        r@ == flag_text(b),
{
    if b {
        "true"
    } else {
        "false"
    }
}

/// `기준일: ` and the date.
pub open spec fn date_line(date: Date) -> Seq<char> {
    "기준일: "@ + chrono_date_text(date.days_from_ce as int)
}

fn push_date_line(text: &mut String, date: Date)
    requires
        date.wf(),
    ensures
        final(text)@ == old(text)@ + date_line(date),
{
    text.append("기준일: ");
    text.append(date.to_text().as_str());
}

/// The message sent before the daily collection.
pub fn collect_started_message(date: Date, mode: TradingMode) -> (r: String)
    requires
        date.wf(),
    ensures
        r@ == "[수집 시작]\n"@ + date_line(date) + "\n모드: "@ + mode_text(mode),
{
    let mut text = String::from_str("[수집 시작]\n");
    push_date_line(&mut text, date);
    text.append("\n모드: ");
    text.append(mode.as_str());
    text
}

/// The message sent after the daily collection.
pub fn collect_finished_message(date: Date, mode: TradingMode, dry_run: bool) -> (r: String)
    requires
        date.wf(),
    ensures
        r@ == "[수집 완료]\n"@ + date_line(date) + "\n모드: "@ + mode_text(mode) + "\nDRY_RUN: "@
            + flag_text(dry_run),
{
    let mut text = String::from_str("[수집 완료]\n");
    push_date_line(&mut text, date);
    text.append("\n모드: ");
    text.append(mode.as_str());
    text.append("\nDRY_RUN: ");
    text.append(flag_str(dry_run));
    text
}

/// Monitoring runs only in dry-run mode: real order execution is disabled.
pub fn monitor_guard(dry_run: bool) -> (r: Result<(), String>)
    ensures
        r is Ok <==> dry_run,
        r matches Err(e) ==> e@
            == "DRY_RUN=false is not supported in this initial version; real order execution is disabled"@,
{
    if !dry_run {
        return Err(
            String::from_str(
                "DRY_RUN=false is not supported in this initial version; real order execution is disabled",
            ),
        );
    }
    Ok(())
}

/// The message sent when monitoring starts.
pub fn monitor_started_message(date: Date, dry_run: bool) -> (r: String)
    requires
        date.wf(),
    ensures
        r@ == "[장중 감시 시작]\n"@ + date_line(date) + "\nDRY_RUN: "@ + flag_text(dry_run),
{
    let mut text = String::from_str("[장중 감시 시작]\n");
    push_date_line(&mut text, date);
    text.append("\nDRY_RUN: ");
    text.append(flag_str(dry_run));
    text
}

/// The message sent when monitoring ends.
pub fn monitor_finished_message(date: Date) -> (r: String)
    requires
        date.wf(),
    ensures
        r@ == "[장중 감시 종료]\n"@ + date_line(date),
{
    let mut text = String::from_str("[장중 감시 종료]\n");
    push_date_line(&mut text, date);
    text
}

/// The lines of the health check: mode, dry run and database, then a line on mock data
/// when the credentials are missing and one on orders when running dry.
pub open spec fn health_check_lines(config: AppConfig) -> Seq<Seq<char>> {
    seq![
        "[Health Check]"@,
        "모드: "@ + mode_text(config.app.trading_mode),
        "DRY_RUN: "@ + flag_text(config.app.dry_run),
        "DATABASE_URL: "@ + config.database.url@,
    ] + (if config.kis.missing_credentials() {
        seq!["KIS API credentials are missing. Running in mock data mode."@]
    } else {
        Seq::<Seq<char>>::empty()
    }) + (if config.app.dry_run {
        seq!["DRY_RUN is enabled. No real orders will be submitted."@]
    } else {
        Seq::<Seq<char>>::empty()
    })
}

fn line(parts: &str, rest: &str) -> (r: String)
    ensures
        r@ == parts@ + rest@,
{
    let mut l = String::from_str(parts);
    l.append(rest);
    l
}

/// The health check report, one line per fact.
pub fn health_check_message(config: &AppConfig) -> (r: String)
    ensures
        r@ == joined(health_check_lines(*config), "\n"@),
{
    let mut lines: Vec<String> = Vec::new();
    lines.push(String::from_str("[Health Check]"));
    lines.push(line("모드: ", config.app.trading_mode.as_str()));
    lines.push(line("DRY_RUN: ", flag_str(config.app.dry_run)));
    lines.push(line("DATABASE_URL: ", config.database.url.as_str()));
    if config.kis.credentials_missing() {
        lines.push(String::from_str("KIS API credentials are missing. Running in mock data mode."));
    }
    if config.app.dry_run {
        lines.push(String::from_str("DRY_RUN is enabled. No real orders will be submitted."));
    }
    assert(views(lines@) =~= health_check_lines(*config));
    join(&lines, "\n")
}

} // verus!
