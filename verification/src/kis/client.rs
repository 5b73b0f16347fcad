//! Which broker client runs, and what the HTTP client sends.
use vstd::prelude::*;
use crate::config::{AppConfig, TradingMode};
use crate::domain::{
    CurrentQuote, FinancialRatio, InvestorFlowDaily, OhlcvDaily, OrderResponse, StockBasic,
};

verus! {

/// The broker client to run.
#[derive(Clone, Debug)]
pub enum KisClientChoice {
    /// Fixed data and dry-run orders.
    Mock,
    /// The KIS HTTP API at `base_url` with the configured credentials.
    Http(HttpKisClient),
}

/// The bot serves mock data: the mode is mock or the credentials are missing.
pub open spec fn runs_on_mock_data(config: AppConfig) -> bool {
    config.app.trading_mode == TradingMode::Mock || config.kis.missing_credentials()
}

/// The default settings are safe: mock data, a dry run, real orders off and no webhook.
/// Missing credentials alone also mean mock data, whatever the mode.
pub proof fn default_settings_are_safe(config: AppConfig)
    ensures
        config.is_default() ==> runs_on_mock_data(config) && config.app.dry_run
            && !config.kis.enable_real_order && config.kis.missing_credentials()
            && config.discord.webhook_url@.len() == 0,
        config.kis.missing_credentials() ==> runs_on_mock_data(config),
{
}

/// Mock data when the mode is mock or the credentials are missing; otherwise the HTTP
/// API, at the mock-trading host for paper trading and at the real host for real trading.
pub fn client_from_config(config: &AppConfig) -> (r: KisClientChoice)
    ensures
        r is Mock <==> runs_on_mock_data(*config),
        r matches KisClientChoice::Http(c) ==> {
            &&& c.base_url@ == (if config.app.trading_mode == TradingMode::Real {
                config.kis.base_url_real@
            } else {
                config.kis.base_url_mock@
            })
            &&& c.app_key@ == config.kis.app_key@
            &&& c.app_secret@ == config.kis.app_secret@
        },
{
    if config.app.trading_mode == TradingMode::Mock || config.kis.credentials_missing() {
        KisClientChoice::Mock
    } else {
        let base_url = match config.app.trading_mode {
            TradingMode::Mock => config.kis.base_url_mock.clone(),
            TradingMode::Paper => config.kis.base_url_mock.clone(),
            TradingMode::Real => config.kis.base_url_real.clone(),
        };
        KisClientChoice::Http(
            HttpKisClient::new(base_url, config.kis.app_key.clone(), config.kis.app_secret.clone()),
        )
    }
}

/// `s` without the `/` characters at its end.
pub open spec fn trim_trailing_slashes(s: Seq<char>) -> Seq<char>
    decreases s.len(),
{
    if s.len() > 0 && s.last() == '/' {
        trim_trailing_slashes(s.drop_last())
    } else {
        s
    }
}

/// At most the first `n` characters of `s`.
pub open spec fn first_chars(s: Seq<char>, n: nat) -> Seq<char> {
    if s.len() <= n {
        s
    } else {
        s.take(n as int)
    }
}

/// The endpoint and credentials of the KIS HTTP API.
#[derive(Clone, Debug)]
pub struct HttpKisClient {
    pub base_url: String,
    pub app_key: String,
    pub app_secret: String,
}

/// What serde_json makes of a token response body: the text of the parse error, nothing
/// when the body holds no string `access_token`, or that token.
pub uninterp spec fn json_access_token(body: Seq<char>) -> Result<Option<Seq<char>>, Seq<char>>;

/// A parse outcome with its texts taken as character sequences.
pub open spec fn parsed_token_view(r: Result<Option<String>, String>) -> Result<
    Option<Seq<char>>,
    Seq<char>,
> {
    match r {
        Ok(Some(t)) => Ok(Some(t@)),
        Ok(None) => Ok(None),
        Err(e) => Err(e@),
    }
}

/// The access token of a token response body, read with serde_json.
///
/// Trusted: `serde_json::from_str::<serde_json::Value>`, then `Value::get("access_token")`
/// and `Value::as_str`. Claimed: the outcome is a function of the body, named
/// `json_access_token`; which bodies parse is left to that name.
#[verifier::external_body]
pub(crate) fn parse_access_token(body: &str) -> (r: Result<Option<String>, String>)
    ensures
        json_access_token(body@) == parsed_token_view(r),
{
    match serde_json::from_str::<serde_json::Value>(body) {
        Ok(value) => Ok(value.get("access_token").and_then(|v| v.as_str()).map(|v| v.to_string())),
        Err(e) => Err(e.to_string()),
    }
}

/// What a token response gives: the failure of a refused request, the error of a body
/// that does not parse, the complaint of a body without a token, or the token.
pub open spec fn token_outcome(status_ok: bool, status: Seq<char>, body: Seq<char>) -> Result<
    Seq<char>,
    Seq<char>,
> {
    if !status_ok {
        Err("KIS token failed: "@ + status + " "@ + first_chars(body, TOKEN_BODY_LIMIT as nat))
    } else {
        match json_access_token(body) {
            Err(e) => Err("parse KIS token json: "@ + e),
            Ok(None) => Err("KIS token response missing access_token"@),
            Ok(Some(t)) => Ok(t),
        }
    }
}

/// The longest part of a token error body that goes into the error.
pub const TOKEN_BODY_LIMIT: usize = 300usize;

fn unavailable(text: &str) -> (r: String)
    ensures
        r@ == text@,
{
    String::from_str(text)
}

impl HttpKisClient {
    pub fn new(base_url: String, app_key: String, app_secret: String) -> (r: HttpKisClient)
        ensures
            r.base_url@ == base_url@,
            r.app_key@ == app_key@,
            r.app_secret@ == app_secret@,
    {
        HttpKisClient { base_url, app_key, app_secret }
    }

    /// The token endpoint: the base URL without trailing slashes, then `/oauth2/tokenP`.
    pub fn token_url(&self) -> (r: String)
        ensures
            r@ == trim_trailing_slashes(self.base_url@) + "/oauth2/tokenP"@,
    {
        let base = self.base_url.as_str();
        let mut n = base.unicode_len();
        assert(base@.take(n as int) =~= base@);
        while n > 0 && base.get_char(n - 1) == '/'
            invariant
                n <= base@.len(),
                trim_trailing_slashes(base@.take(n as int)) == trim_trailing_slashes(base@),
            decreases n,
        {
            assert(base@.take(n as int).drop_last() =~= base@.take(n - 1));
            n = n - 1;
        }
        assert(base@.take(n as int) =~= base@.subrange(0, n as int));
        let mut url = String::from_str(base.substring_char(0, n));
        url.append("/oauth2/tokenP");
        url
    }

    /// The error of a refused token request: the status and the start of the body.
    pub fn token_failure_message(status: &str, body: &str) -> (r: String)
        ensures
            r@ == "KIS token failed: "@ + status@ + " "@ + first_chars(body@, TOKEN_BODY_LIMIT as nat),
    {
        let len = body.unicode_len();
        let n = if len < TOKEN_BODY_LIMIT { len } else { TOKEN_BODY_LIMIT };
        let mut text = String::from_str("KIS token failed: ");
        text.append(status);
        text.append(" ");
        text.append(body.substring_char(0, n));
        proof {
            if len <= TOKEN_BODY_LIMIT {
                assert(body@.subrange(0, n as int) =~= body@);
            }
        }
        text
    }

    /// The access token of a token response with the given status and body: a refused
    /// request fails with its status and the start of its body, a body that does not parse
    /// fails with the parse error, and a body without a string `access_token` fails too.
    pub fn token_from_response(status_ok: bool, status: &str, body: &str) -> (r: Result<
        String,
        String,
    >)
        ensures
            r is Ok <==> token_outcome(status_ok, status@, body@) is Ok,
            r matches Ok(t) ==> token_outcome(status_ok, status@, body@) == Ok::<
                Seq<char>,
                Seq<char>,
            >(t@),
            r matches Err(e) ==> token_outcome(status_ok, status@, body@) == Err::<
                Seq<char>,
                Seq<char>,
            >(e@),
            !status_ok ==> (r matches Err(e) && e@ == "KIS token failed: "@ + status@ + " "@
                + first_chars(body@, TOKEN_BODY_LIMIT as nat)),
            status_ok ==> (r is Ok <==> json_access_token(body@) matches Ok(Some(_))),
            r matches Ok(t) ==> json_access_token(body@) == Ok::<Option<Seq<char>>, Seq<char>>(
                Some(t@),
            ),
    {
        if !status_ok {
            return Err(HttpKisClient::token_failure_message(status, body));
        }
        match parse_access_token(body) {
            Err(e) => {
                let mut m = String::from_str("parse KIS token json: ");
                m.append(e.as_str());
                Err(m)
            },
            Ok(None) => Err(String::from_str("KIS token response missing access_token")),
            Ok(Some(t)) => Ok(t),
        }
    }

    /// Not offered yet: the official endpoint is still to be wired.
    pub fn fetch_stock_universe(&self) -> (r: Result<Vec<StockBasic>, String>)
        ensures
            r matches Err(e) && e@
                == "KIS stock universe endpoint pending: official endpoint/TR_ID required"@,
    {
        Err(unavailable("KIS stock universe endpoint pending: official endpoint/TR_ID required"))
    }

    /// Not offered yet: the official endpoint is still to be wired.
    pub fn fetch_investor_flow_daily(&self) -> (r: Result<Vec<InvestorFlowDaily>, String>)
        ensures
            r matches Err(e) && e@
                == "KIS investor flow endpoint pending: official endpoint/TR_ID required"@,
    {
        Err(unavailable("KIS investor flow endpoint pending: official endpoint/TR_ID required"))
    }

    /// Not offered yet: the official endpoint is still to be wired.
    pub fn fetch_ohlcv_daily(&self) -> (r: Result<Vec<OhlcvDaily>, String>)
        ensures
            r matches Err(e) && e@ == "KIS OHLCV endpoint pending: official endpoint/TR_ID required"@,
    {
        Err(unavailable("KIS OHLCV endpoint pending: official endpoint/TR_ID required"))
    }

    /// Not offered yet: the official endpoint is still to be wired.
    pub fn fetch_stock_basic(&self) -> (r: Result<StockBasic, String>)
        ensures
            r matches Err(e) && e@
                == "KIS stock basic endpoint pending: official endpoint/TR_ID required"@,
    {
        Err(unavailable("KIS stock basic endpoint pending: official endpoint/TR_ID required"))
    }

    /// Not offered yet: the official endpoint is still to be wired.
    pub fn fetch_financial_ratio(&self) -> (r: Result<Option<FinancialRatio>, String>)
        ensures
            r matches Err(e) && e@
                == "KIS financial endpoint pending: official endpoint/TR_ID required"@,
    {
        Err(unavailable("KIS financial endpoint pending: official endpoint/TR_ID required"))
    }

    /// Not offered yet: the official endpoint is still to be wired.
    pub fn fetch_market_cap(&self) -> (r: Result<Option<i64>, String>)
        ensures
            r matches Err(e) && e@
                == "KIS market cap endpoint pending: official endpoint/TR_ID required"@,
    {
        Err(unavailable("KIS market cap endpoint pending: official endpoint/TR_ID required"))
    }

    /// Not offered yet: the official endpoint is still to be wired.
    pub fn fetch_current_quote(&self) -> (r: Result<CurrentQuote, String>)
        ensures
            r matches Err(e) && e@ == "KIS quote endpoint pending: official endpoint/TR_ID required"@,
    {
        Err(unavailable("KIS quote endpoint pending: official endpoint/TR_ID required"))
    }

    /// Real orders are never sent.
    pub fn submit_order(&self) -> (r: Result<OrderResponse, String>)
        ensures
            r matches Err(e) && e@ == "real KIS order submission is intentionally not implemented"@,
    {
        Err(unavailable("real KIS order submission is intentionally not implemented"))
    }
}

} // verus!
