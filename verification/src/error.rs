//! The bot's own errors.
use vstd::prelude::*;

verus! {

/// What stops the bot before it would trade unsafely.
#[derive(Clone, Debug)]
pub enum BotError {
    MissingKisCredentials,
    RealOrderDisabled,
    InvalidStrategyState(String),
}

/// The message of an error.
pub open spec fn bot_error_text(e: BotError) -> Seq<char> {
    match e {
        BotError::MissingKisCredentials => "KIS credentials missing for non-mock operation"@,
        BotError::RealOrderDisabled => "real order is disabled by safety gate"@,
        BotError::InvalidStrategyState(s) => "invalid strategy state: "@ + s@,
    }
}

impl BotError {
    /// The message of the error, as its `Display` writes it.
    pub fn message(&self) -> (r: String)
        ensures
            r@ == bot_error_text(*self),
    {
        match self {
            BotError::MissingKisCredentials => String::from_str(
                "KIS credentials missing for non-mock operation",
            ),
            BotError::RealOrderDisabled => String::from_str("real order is disabled by safety gate"),
            BotError::InvalidStrategyState(s) => {
                let mut m = String::from_str("invalid strategy state: ");
                m.append(s.as_str());
                m
            },
        }
    }
}

} // verus!
