//! The price source: what to ask it, how to read its status, and how its
//! quotations become price records.

use crate::error::{ErrorKind, RunError, RunErrorView};
use crate::settings::{lookup, ConfigError, Environment};
use crate::types::{
    views_of, Price, SpotPrice, SpotPricePrice, SpotPriceResponse, SpotPriceView,
};
use vstd::prelude::*;
use vstd::string::StringExecFns;

verus! {

/// The variable that holds the access token.
pub const ACCESS_TOKEN_VARIABLE: &'static str = "TIBBER_ACCESS_TOKEN";

/// Where the request goes.
pub const ENDPOINT: &'static str = "https://api.tibber.com/v1-beta/gql";

/// The header that carries the token.
pub const AUTHORIZATION_HEADER: &'static str = "Authorization";

/// The request: energy price, tax, currency and start of every quotation of
/// today and of tomorrow, for every home of the account.
pub const PRICE_QUERY: &'static str =
    "{ viewer { homes { currentSubscription { priceInfo { today { energy tax currency startsAt } tomorrow { energy tax currency startsAt } } } } } }";

pub struct TibberClientConfig {
    access_token: String,
}

impl View for TibberClientConfig {
    type V = Seq<char>;

    /// The access token.
    closed spec fn view(&self) -> Seq<char> {
        self.access_token@
    }
}

impl TibberClientConfig {
    pub fn new(access_token: &str) -> (config: Result<TibberClientConfig, ConfigError>)
        ensures
            config is Ok,
            config->Ok_0@ == access_token@,
    {
        Ok(TibberClientConfig { access_token: String::from_str(access_token) })
    }

    /// Takes the token from the variable [`ACCESS_TOKEN_VARIABLE`], which must be there.
    pub fn from_env(env: &Environment) -> (config: Result<TibberClientConfig, ConfigError>)
        ensures
            match config {
                Ok(c) => lookup(env@, ACCESS_TOKEN_VARIABLE@) == Some(c@),
                Err(e) => lookup(env@, ACCESS_TOKEN_VARIABLE@) is None && e.variable@
                    == ACCESS_TOKEN_VARIABLE@,
            },
    {
        match env.require(ACCESS_TOKEN_VARIABLE) {
            Ok(token) => Ok(TibberClientConfig { access_token: token }),
            Err(e) => Err(e),
        }
    }

    pub fn access_token(&self) -> (token: &String)
        ensures
            token@ == self@,
    {
        &self.access_token
    }
}

pub struct TibberClient {
    config: TibberClientConfig,
}

impl View for TibberClient {
    type V = Seq<char>;

    /// The access token.
    closed spec fn view(&self) -> Seq<char> {
        self.config@
    }
}

/// The record that a quotation becomes: its window starts where the
/// quotation starts and lasts an hour, energy price and tax are taken over,
/// markup and energy tax are zero, identifier and source tag are not set.
pub open spec fn record_of(quotation: SpotPricePrice) -> SpotPriceView {
    SpotPriceView {
        id: None,
        source: None,
        from: quotation.starts_at,
        till: quotation.starts_at.window_end(),
        market_price: quotation.energy,
        market_price_tax: quotation.tax,
        sourcing_markup_price: Price::zero(),
        energy_tax_price: Price::zero(),
    }
}

/// The records of a list of quotations, in order.
pub open spec fn records_of(quotations: Seq<SpotPricePrice>) -> Seq<SpotPriceView> {
    quotations.map_values(|q: SpotPricePrice| record_of(q))
}

/// The window of every quotation ends at an instant that can be represented.
pub open spec fn windows_fit(quotations: Seq<SpotPricePrice>) -> bool {
    forall|i: int| 0 <= i < quotations.len() ==> (#[trigger] quotations[i]).starts_at.has_window_end()
}

/// A response can be used: it holds a home, and the windows of the first home's quotations fit.
pub open spec fn is_usable(response: SpotPriceResponse) -> bool {
    &&& response.data.viewer.homes@.len() > 0
    &&& windows_fit(response.data.viewer.homes@[0].current_subscription.price_info.today@)
    &&& windows_fit(response.data.viewer.homes@[0].current_subscription.price_info.tomorrow@)
}

/// The records of a usable response: those of today, then those of tomorrow, of the first home.
pub open spec fn response_records(response: SpotPriceResponse) -> Seq<SpotPriceView> {
    let info = response.data.viewer.homes@[0].current_subscription.price_info;
    records_of(info.today@) + records_of(info.tomorrow@)
}

pub open spec fn malformed_message() -> Seq<char> {
    "the response holds no home, or a price window that ends beyond the last instant"@
}

/// How the status of a response is to be treated: `None` for success (200
/// to 299), a transient failure for a fault of the server (500 to 599), a
/// fatal failure for anything else.
pub open spec fn status_class(status: u16) -> Option<ErrorKind> {
    if 200 <= status < 300 {
        None
    } else if 500 <= status < 600 {
        Some(ErrorKind::Transient)
    } else {
        Some(ErrorKind::Fatal)
    }
}

/// Computes [`status_class`].
pub fn classify_status(status: u16) -> (class: Option<ErrorKind>)
    ensures
        class == status_class(status),
{
    if 200 <= status && status < 300 {
        None
    } else if 500 <= status && status < 600 {
        Some(ErrorKind::Transient)
    } else {
        Some(ErrorKind::Fatal)
    }
}

/// Appends the records of `quotations` to `records`; `false`, with
/// `records` unchanged or extended by a part, where a window does not fit.
fn append_records(records: &mut Vec<SpotPrice>, quotations: &Vec<SpotPricePrice>) -> (done: bool)
    ensures
        done == windows_fit(quotations@),
        done ==> views_of(final(records)@) == views_of(old(records)@) + records_of(quotations@),
{
    let ghost before = views_of(records@);
    let mut i: usize = 0;
    assert(views_of(records@) =~= before + records_of(quotations@.take(0)));
    while i < quotations.len()
        invariant
            i <= quotations.len(),
            windows_fit(quotations@.take(i as int)),
            views_of(records@) == before + records_of(quotations@.take(i as int)),
        decreases quotations.len() - i,
    {
        let quotation = &quotations[i];
        match quotation.starts_at.end_of_window() {
            Some(till) => {
                let ghost so_far = records@;
                records.push(
                    SpotPrice {
                        id: None,
                        source: None,
                        from: quotation.starts_at,
                        till,
                        market_price: quotation.energy,
                        market_price_tax: quotation.tax,
                        sourcing_markup_price: Price::unset(),
                        energy_tax_price: Price::unset(),
                    },
                );
                proof {
                    assert(quotations@.take(i + 1) =~= quotations@.take(i as int).push(
                        *quotation,
                    ));
                    assert(views_of(records@) =~= views_of(so_far).push(record_of(*quotation)));
                    assert(views_of(records@) =~= before + records_of(quotations@.take(i + 1)));
                }
            },
            None => {
                assert(!quotations@[i as int].starts_at.has_window_end());
                return false;
            },
        }
        i += 1;
    }
    assert(quotations@.take(quotations.len() as int) =~= quotations@);
    true
}

impl TibberClient {
    pub fn new(config: TibberClientConfig) -> (client: TibberClient)
        ensures
            client@ == config@,
    {
        TibberClient { config }
    }

    /// A client with the token that the environment holds.
    pub fn from_env(env: &Environment) -> (client: Result<TibberClient, ConfigError>)
        ensures
            match client {
                Ok(c) => lookup(env@, ACCESS_TOKEN_VARIABLE@) == Some(c@),
                Err(e) => lookup(env@, ACCESS_TOKEN_VARIABLE@) is None && e.variable@
                    == ACCESS_TOKEN_VARIABLE@,
            },
    {
        match TibberClientConfig::from_env(env) {
            Ok(config) => Ok(TibberClient::new(config)),
            Err(e) => Err(e),
        }
    }

    /// The value of the authorization header: the word `Bearer`, a blank, the token.
    pub fn authorization(&self) -> (header: String)
        ensures
            header@ == "Bearer "@ + self@,
    {
        String::from_str("Bearer ").concat(self.config.access_token.as_str())
    }

    /// The failure that a status stands for, with the caller's words for
    /// it; `None` for a status of success.
    pub fn status_failure(status: u16, message: &str) -> (failure: Option<RunError>)
        ensures
            match failure {
                Some(e) => status_class(status) == Some(e@.kind) && e@.message == message@,
                None => status_class(status) is None,
            },
    {
        match classify_status(status) {
            Some(kind) => Some(RunError::new(kind, message)),
            None => None,
        }
    }

    /// Turns the answer of the source into price records: the quotations of
    /// today, then those of tomorrow, of the first home. As many records
    /// come out as quotations went in. A response that [`is_usable`] does
    /// not accept is a fatal failure.
    pub fn spot_prices(response: &SpotPriceResponse) -> (records: Result<Vec<SpotPrice>, RunError>)
        ensures
            match records {
                Ok(list) => {
                    &&& is_usable(*response)
                    &&& views_of(list@) == response_records(*response)
                    &&& list@.len()
                        == response.data.viewer.homes@[0].current_subscription.price_info.today@.len()
                        + response.data.viewer.homes@[0].current_subscription.price_info.tomorrow@.len()
                },
                Err(e) => !is_usable(*response) && e@ == (RunErrorView {
                    kind: ErrorKind::Fatal,
                    message: malformed_message(),
                }),
            },
    {
        if response.data.viewer.homes.len() == 0 {
            return Err(
                RunError::fatal(
                    "the response holds no home, or a price window that ends beyond the last instant",
                ),
            );
        }
        let info = &response.data.viewer.homes[0].current_subscription.price_info;
        let mut list: Vec<SpotPrice> = Vec::new();
        assert(views_of(list@) =~= Seq::empty());
        let fits = append_records(&mut list, &info.today) && append_records(
            &mut list,
            &info.tomorrow,
        );
        if fits {
            assert(views_of(list@) =~= response_records(*response));
            assert(views_of(list@).len() == list@.len());
            Ok(list)
        } else {
            Err(
                RunError::fatal(
                    "the response holds no home, or a price window that ends beyond the last instant",
                ),
            )
        }
    }
}

} // verus!
