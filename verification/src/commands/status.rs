//! Reporting what is configured: the account, with its token masked.

use vstd::prelude::*;
use vstd::string::StringExecFns;
use crate::config::Config;
use crate::encoding::text_view;

verus! {

/// A token is shown in part only if it is longer than this.
pub const SHORT_TOKEN: usize = 20;

/// How many characters of a long token are shown at its start.
pub const TOKEN_HEAD: usize = 10;

/// How many characters of a long token are shown at its end.
pub const TOKEN_TAIL: usize = 6;

/// What is shown of a token: its first ten and last six characters around
/// an ellipsis if it has more than twenty, else nothing of it.
pub open spec fn token_preview(token: Seq<char>) -> Seq<char> {
    if token.len() > SHORT_TOKEN {
        token.subrange(0, TOKEN_HEAD as int) + "..."@ + token.subrange(
            token.len() - TOKEN_TAIL,
            token.len() as int,
        )
    } else {
        "****"@
    }
}

/// Masks a token for display.
pub fn preview_token(token: &str) -> (shown: String)
    ensures
        shown@ == token_preview(token@),
{
    let n = token.unicode_len();
    if n > SHORT_TOKEN {
        String::from_str(token.substring_char(0, TOKEN_HEAD)).concat("...").concat(
            token.substring_char(n - TOKEN_TAIL, n),
        )
    } else {
        String::from_str("****")
    }
}

/// What is reported of the account the operator is logged in to.
#[derive(Clone, Debug, PartialEq, Eq)]
pub struct AccountStatus {
    pub api_endpoint: String,
    pub token_preview: String,
    pub app_id: Option<String>,
    pub tier: Option<String>,
}

/// Reports the account of a stored configuration, or `None` when the
/// operator is not logged in. The token appears masked only.
pub fn execute(config: &Option<Config>) -> (account: Option<AccountStatus>)
    ensures
        match *config {
            None => account is None,
            Some(c) => {
                &&& account is Some
                &&& account->0.api_endpoint@ == c.api_endpoint@
                &&& account->0.token_preview@ == token_preview(c.api_token@)
                &&& text_view(account->0.app_id) == text_view(c.app_id)
                &&& text_view(account->0.tier) == text_view(c.tier)
            },
        },
{
    match config {
        None => None,
        Some(c) => Some(
            AccountStatus {
                api_endpoint: c.api_endpoint.clone(),
                token_preview: preview_token(c.api_token.as_str()),
                app_id: match &c.app_id {
                    Some(id) => Some(id.clone()),
                    None => None,
                },
                tier: match &c.tier {
                    Some(tier) => Some(tier.clone()),
                    None => None,
                },
            },
        ),
    }
}

} // verus!
