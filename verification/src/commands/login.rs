//! Logging in through the browser: where to send the operator, and what to
//! make of the requests that come back to the local callback listener.

use vstd::prelude::*;
use vstd::string::StringExecFns;
use crate::api::TokenResponse;
use crate::config::{Config, ConfigView};
use crate::encoding::hex_digit;
use crate::keyring::{Keyring, KeyringView};

verus! {

/// The registry that the browser login goes to.
pub const BACKEND_URL: &'static str = "http://localhost:8080";

/// The local port on which the callback is awaited.
pub const CALLBACK_PORT: u16 = 8081;

/// The decimal text of a number.
pub open spec fn decimal_text(n: nat) -> Seq<char>
    decreases n,
{
    if n < 10 {
        seq![hex_digit(n as int)]
    } else {
        decimal_text(n / 10).push(hex_digit((n % 10) as int))
    }
}

/// The one-character text of a decimal digit.
fn digit_text(d: u16) -> (text: &'static str)
    requires
        d < 10,
    ensures
        text@ == seq![hex_digit(d as int)],
{
    proof {
        reveal_strlit("0");
        reveal_strlit("1");
        reveal_strlit("2");
        reveal_strlit("3");
        reveal_strlit("4");
        reveal_strlit("5");
        reveal_strlit("6");
        reveal_strlit("7");
        reveal_strlit("8");
        reveal_strlit("9");
    }
    if d == 0 {
        "0"
    } else if d == 1 {
        "1"
    } else if d == 2 {
        "2"
    } else if d == 3 {
        "3"
    } else if d == 4 {
        "4"
    } else if d == 5 {
        "5"
    } else if d == 6 {
        "6"
    } else if d == 7 {
        "7"
    } else if d == 8 {
        "8"
    } else {
        "9"
    }
}

/// Writes a number in decimal.
pub fn decimal(n: u16) -> (text: String)
    ensures
        text@ == decimal_text(n as nat),
    decreases n,
{
    if n < 10 {
        String::from_str(digit_text(n))
    } else {
        let text = decimal(n / 10).concat(digit_text(n % 10));
        proof {
            assert(decimal_text((n / 10) as nat) + seq![hex_digit((n % 10) as int)]
                =~= decimal_text((n / 10) as nat).push(hex_digit((n % 10) as int)));
        }
        text
    }
}

/// The address the operator's browser is sent to: the registry's login
/// page, told which local port awaits the answer.
pub open spec fn login_address(backend: Seq<char>, port: u16) -> Seq<char> {
    backend + "/auth/google/login?state=cli:"@ + decimal_text(port as nat)
}

/// The address the callback listener binds to.
pub open spec fn listen_address(port: u16) -> Seq<char> {
    "0.0.0.0:"@ + decimal_text(port as nat)
}

/// The address that a request to the callback listener is read as, from
/// the target it asks for.
pub open spec fn callback_address(port: u16, target: Seq<char>) -> Seq<char> {
    "http://localhost:"@ + decimal_text(port as nat) + target
}

/// The name-value pairs in the query of an absolute URL, percent-decoded,
/// in order; `None` if the text is no such URL.
pub uninterp spec fn url_query_pairs(url: Seq<char>) -> Option<Seq<(Seq<char>, Seq<char>)>>;

/// The views of a list of pairs of texts.
pub open spec fn pair_views(pairs: Seq<(String, String)>) -> Seq<(Seq<char>, Seq<char>)> {
    Seq::new(pairs.len(), |i: int| (pairs[i].0@, pairs[i].1@))
}

/// `Url::query_pairs` of the `url` crate on what `Url::parse` makes of the
/// text, each pair as owned strings. Trusted to be a function of the text
/// alone.
#[verifier::external_body]
pub(crate) fn query_pairs(url: &str) -> (pairs: Option<Vec<(String, String)>>)
    ensures
        match pairs {
            Some(p) => url_query_pairs(url@) == Some(pair_views(p@)),
            None => url_query_pairs(url@) is None,
        },
{
    let parsed = url::Url::parse(url).ok()?;
    Some(parsed.query_pairs().map(|(name, value)| (name.into_owned(), value.into_owned())).collect())
}

/// The value of the first pair named `token`.
pub open spec fn first_token(pairs: Seq<(Seq<char>, Seq<char>)>) -> Option<Seq<char>>
    decreases pairs.len(),
{
    if pairs.len() == 0 {
        None
    } else if pairs.first().0 == "token"@ {
        Some(pairs.first().1)
    } else {
        first_token(pairs.drop_first())
    }
}

/// What the listener makes of a request.
#[derive(Clone, Debug, PartialEq, Eq)]
pub enum LoginReply {
    /// The request carried a token: this is the configuration to store.
    Accepted(Config),
    /// The request carried none: keep waiting.
    Waiting,
}

/// The configuration that a login leaves: the registry and the token, and
/// nothing else.
pub open spec fn login_config(backend: Seq<char>, token: Seq<char>) -> ConfigView {
    ConfigView {
        api_endpoint: backend,
        api_token: token,
        app_id: None,
        tier: None,
        encryption_key: None,
        keyring: KeyringView { keys: None, active: None },
    }
}

/// The token that a request target carries, if any.
pub open spec fn callback_token(target: Seq<char>) -> Option<Seq<char>> {
    match url_query_pairs(callback_address(CALLBACK_PORT, target)) {
        None => None,
        Some(pairs) => first_token(pairs),
    }
}

/// Builds the address the operator's browser is sent to.
pub fn login_url(backend: &str, port: u16) -> (url: String)
    ensures
        url@ == login_address(backend@, port),
{
    String::from_str(backend).concat("/auth/google/login?state=cli:").concat(
        decimal(port).as_str(),
    )
}

/// Builds the address the callback listener binds to.
pub fn listen_on(port: u16) -> (address: String)
    ensures
        address@ == listen_address(port),
{
    String::from_str("0.0.0.0:").concat(decimal(port).as_str())
}

/// Finds the value of the first pair named `token`.
pub fn find_token(pairs: &Vec<(String, String)>) -> (token: Option<String>)
    ensures
        match token {
            Some(t) => first_token(pair_views(pairs@)) == Some(t@),
            None => first_token(pair_views(pairs@)) is None,
        },
{
    let name = String::from_str("token");
    let ghost views = pair_views(pairs@);
    let mut i: usize = 0;
    proof {
        assert(views.skip(0) =~= views);
    }
    while i < pairs.len()
        invariant
            i <= pairs@.len(),
            views == pair_views(pairs@),
            name@ == "token"@,
            first_token(views) == first_token(views.skip(i as int)),
        decreases pairs@.len() - i,
    {
        proof {
            assert(views.skip(i as int).first() == (pairs@[i as int].0@, pairs@[i as int].1@));
            assert(views.skip(i as int).drop_first() =~= views.skip(i + 1));
        }
        if pairs[i].0 == name {
            return Some(pairs[i].1.clone());
        }
        i += 1;
    }
    None
}

/// What a way of logging in ends with: either one yields the token that
/// the configuration then holds.
#[derive(Clone, Debug, PartialEq, Eq)]
pub enum Credentials {
    /// The registry's answer to the exchange of an API key.
    Exchanged(TokenResponse),
    /// The token that the browser brought back to the callback listener.
    Captured(String),
}

impl Credentials {
    /// The token that the credentials carry.
    pub open spec fn token_view(self) -> Seq<char> {
        match self {
            Credentials::Exchanged(answer) => answer.access_token@,
            Credentials::Captured(token) => token@,
        }
    }
}

/// The configuration that a login leaves, whichever way it went.
pub fn authenticated(backend: &str, credentials: Credentials) -> (config: Config)
    ensures
        config@ == login_config(backend@, credentials.token_view()),
{
    match credentials {
        Credentials::Exchanged(answer) => config_for(backend, answer.access_token),
        Credentials::Captured(token) => config_for(backend, token),
    }
}

/// The configuration that a login with this token leaves.
pub fn config_for(backend: &str, token: String) -> (config: Config)
    ensures
        config@ == login_config(backend@, token@),
{
    Config {
        api_endpoint: String::from_str(backend),
        api_token: token,
        app_id: None,
        tier: None,
        encryption_key: None,
        keyring: Keyring::new(),
    }
}

/// Decides what to make of a request to the callback listener, from the
/// target it asks for: accepted, with the configuration to store, if its
/// query carries a token, else still waiting.
pub fn execute(target: &str) -> (reply: LoginReply)
    ensures
        match callback_token(target@) {
            Some(token) => reply matches LoginReply::Accepted(config) && config@ == login_config(
                BACKEND_URL@,
                token,
            ),
            None => reply is Waiting,
        },
{
    let address = String::from_str("http://localhost:").concat(
        decimal(CALLBACK_PORT).as_str(),
    ).concat(target);
    match query_pairs(address.as_str()) {
        None => LoginReply::Waiting,
        Some(pairs) => match find_token(&pairs) {
            None => LoginReply::Waiting,
            Some(token) => LoginReply::Accepted(config_for(BACKEND_URL, token)),
        },
    }
}

} // verus!
