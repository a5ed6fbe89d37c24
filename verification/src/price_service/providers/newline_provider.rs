//! The NewLine price provider: which request to send, and how to read the
//! answer. Sending the request and decoding the body are the caller's part.

use crate::domain::{CurrencyPair, ErrorKind, ErrorView, PriceProviderError};
use crate::text::{same_text, texts};
use vstd::prelude::*;

verus! {

/// Configuration for the NewLine provider.
#[derive(Debug, Clone)]
pub struct NewLineConfig {
    pub base_url: String,
    pub cookie: String,
    pub preferred_city: String,
}

/// One exchange block of a city: the source currency and the rates to each
/// destination.
#[derive(Debug)]
pub struct NewLineExchange<R> {
    pub from_: String,
    pub to_data: Vec<NewLineToData<R>>,
}

/// The rates from one source currency to one destination.
#[derive(Debug, Clone)]
pub struct NewLineToData<R> {
    pub course_from: R,
    pub course_to: R,
    pub to: String,
}

/// The exchange blocks of one city.
#[derive(Debug)]
pub struct NewLineCityData<R> {
    pub city_code: String,
    pub data: Vec<NewLineExchange<R>>,
}

/// The status code of an HTTP response: a number from 100 to 999.
#[derive(Debug, Clone, Copy, PartialEq, Eq, Structural)]
pub struct HttpStatus {
    code: u16,
}

/// The request that asks NewLine for its rates.
#[derive(Debug, Clone, PartialEq, Eq)]
pub struct PriceRequest {
    /// The method of the request.
    pub method: String,
    /// Where the request goes.
    pub url: String,
    /// The value of the `Accept` header.
    pub accept: String,
    /// The value of the `Cookie` header.
    pub cookie: String,
}

/// What came of a request.
#[derive(Debug)]
pub enum UpstreamReply<R> {
    /// No response arrived; the text says why.
    Unreachable(String),
    /// A response arrived, with this status. `body` is the decoded body, or
    /// the text of the error that decoding ended in. It is looked at only
    /// where the status reports success.
    Answered { status: HttpStatus, body: Result<Vec<NewLineCityData<R>>, String> },
}

/// The text of a status as `reqwest::StatusCode` displays it: the number,
/// then the reason phrase that is customary for it.
pub uninterp spec fn status_text(code: u16) -> Seq<char>;

/// Makes a `reqwest::StatusCode` (the `StatusCode` of the `http` crate) with
/// `StatusCode::from_u16` and writes it with its `Display` implementation.
/// Nothing is proved of either here; what is taken on trust is that the text
/// depends on the number alone, so that it is what [`status_text`] stands
/// for. `from_u16` accepts the numbers from 100 to 999 and no others, so the
/// others are left out.
#[verifier::external_body]
fn status_line(code: u16) -> (r: String)
    requires
        100 <= code <= 999,
    ensures
        r@ == status_text(code),
{
    reqwest::StatusCode::from_u16(code).unwrap().to_string()
}

impl HttpStatus {
    #[verifier::type_invariant]
    spec fn in_range(self) -> bool {
        100 <= self.code <= 999
    }

    /// The number of the status.
    pub closed spec fn code(self) -> u16 {
        self.code
    }

    /// Whether the status reports success: whether it lies in 200 to 299.
    pub open spec fn success(self) -> bool {
        200 <= self.code() < 300
    }

    /// The status with the number `code`, if there is one.
    pub fn new(code: u16) -> (r: Option<HttpStatus>)
        ensures
            r is Some <==> 100 <= code <= 999,
            r matches Some(status) ==> status.code() == code,
    {
        if 100 <= code && code <= 999 {
            Some(HttpStatus { code })
        } else {
            None
        }
    }

    /// The number of the status.
    pub fn as_u16(&self) -> (code: u16)
        ensures
            code == self.code(),
            100 <= code <= 999,
    {
        proof {
            use_type_invariant(self);
        }
        self.code
    }

    /// Whether the status reports success.
    pub fn is_success(&self) -> (b: bool)
        ensures
            b == self.success(),
    {
        200 <= self.code && self.code < 300
    }

    /// The status as a text: the number and the reason phrase.
    pub fn to_string(&self) -> (s: String)
        ensures
            s@ == status_text(self.code()),
    {
        status_line(self.as_u16())
    }
}

/// The symbol under which NewLine lists the rate for `pair`. The two
/// stablecoin pairs share one symbol: NewLine does not tell them apart.
pub open spec fn symbol_of(pair: CurrencyPair) -> Seq<char> {
    match pair {
        CurrencyPair::USDCe2RUB => "USDTERC_TO_CASHRUB"@,
        CurrencyPair::USDTe2RUB => "USDTERC_TO_CASHRUB"@,
        CurrencyPair::USD2RUB => "CASHUSD_TO_USDTERC"@,
    }
}

/// The symbols that NewLine lists.
pub open spec fn listed_symbols() -> Seq<Seq<char>> {
    seq![
        "BTC_TO_CASHRUB"@,
        "USDTERC_TO_CASHRUB"@,
        "CASHRUB_TO_USDTERC"@,
        "USDTTRC_TO_CASHRUB"@,
        "ETH_TO_CASHRUB"@,
        "CASHUSD_TO_USDTERC"@,
        "CASHRUB_TO_USDTTRC"@,
        "CASHUSD_TO_USDTTRC"@,
        "CASHRUB_TO_ETH"@,
        "CASHRUB_TO_BTC"@,
        "CASHUSD_TO_ETH"@,
        "CASHUSD_TO_BTC"@,
        "ETH_TO_CASHUSD"@,
        "BTC_TO_CASHUSD"@,
        "USDTERC_TO_CASHUSD"@,
        "USDTTRC_TO_CASHUSD"@,
    ]
}

/// The symbol of the entry for the destination `to` in the exchange block
/// for the source `from`.
pub open spec fn entry_symbol(from: Seq<char>, to: Seq<char>) -> Seq<char> {
    from + "_TO_"@ + to
}

/// Whether `cities` holds, at destination `t` of exchange block `e` of city
/// `c`, an entry of the city `city` with the symbol `symbol`.
pub open spec fn entry_matches<R>(
    cities: Seq<NewLineCityData<R>>,
    c: int,
    e: int,
    t: int,
    city: Seq<char>,
    symbol: Seq<char>,
) -> bool {
    &&& 0 <= c < cities.len()
    &&& 0 <= e < cities[c].data@.len()
    &&& 0 <= t < cities[c].data@[e].to_data@.len()
    &&& cities[c].city_code@ == city
    &&& entry_symbol(cities[c].data@[e].from_@, cities[c].data@[e].to_data@[t].to@) == symbol
}

/// Whether the place `(c1, e1, t1)` comes before `(c2, e2, t2)` when the
/// cities, their exchange blocks and their destinations are read in order.
pub open spec fn comes_before(c1: int, e1: int, t1: int, c2: int, e2: int, t2: int) -> bool {
    c1 < c2 || (c1 == c2 && (e1 < e2 || (e1 == e2 && t1 < t2)))
}

/// Whether `found` is what a search of `cities` for the entry of `city` with
/// `symbol` comes to: the first matching entry in reading order, or nothing
/// where no entry matches.
pub open spec fn is_first_entry<R>(
    cities: Seq<NewLineCityData<R>>,
    city: Seq<char>,
    symbol: Seq<char>,
    found: Option<&NewLineToData<R>>,
) -> bool {
    match found {
        Some(entry) => exists|c: int, e: int, t: int|
            {
                &&& #[trigger] entry_matches(cities, c, e, t, city, symbol)
                &&& *entry == cities[c].data@[e].to_data@[t]
                &&& forall|c2: int, e2: int, t2: int| #[trigger]
                    entry_matches(cities, c2, e2, t2, city, symbol) ==> !comes_before(
                        c2,
                        e2,
                        t2,
                        c,
                        e,
                        t,
                    )
            },
        None => forall|c: int, e: int, t: int|
            !#[trigger] entry_matches(cities, c, e, t, city, symbol),
    }
}

/// The detail of the error for a status that does not report success.
pub open spec fn status_failure_text(code: u16) -> Seq<char> {
    "API request failed with status: "@ + status_text(code)
}

/// The detail of the error for an answer that lacks the entry for `pair`.
pub open spec fn missing_symbol_text(pair: CurrencyPair) -> Seq<char> {
    "Symbol "@ + symbol_of(pair) + " not found in API response for pair "@ + pair.text()
}

/// Price provider for the NewLine API.
pub struct NewLineProvider {
    config: NewLineConfig,
    supported_symbols: Vec<String>,
}

impl NewLineProvider {
    #[verifier::type_invariant]
    spec fn lists_the_symbols(self) -> bool {
        texts(self.supported_symbols@) == listed_symbols()
    }

    /// The base URL of the API.
    pub closed spec fn base_url(&self) -> Seq<char> {
        self.config.base_url@
    }

    /// The session cookie sent with each request.
    pub closed spec fn cookie(&self) -> Seq<char> {
        self.config.cookie@
    }

    /// The code of the city whose rates are used.
    pub closed spec fn preferred_city(&self) -> Seq<char> {
        self.config.preferred_city@
    }

    /// Whether the provider quotes `pair`: whether NewLine lists the symbol
    /// of the pair.
    pub open spec fn supports(&self, pair: CurrencyPair) -> bool {
        listed_symbols().contains(symbol_of(pair))
    }

    /// Create a new NewLineProvider instance.
    pub fn new(config: NewLineConfig) -> (provider: Self)
        ensures
            provider.base_url() == config.base_url@,
            provider.cookie() == config.cookie@,
            provider.preferred_city() == config.preferred_city@,
    {
        let mut supported_symbols: Vec<String> = Vec::new();
        supported_symbols.push("BTC_TO_CASHRUB".to_owned());
        supported_symbols.push("USDTERC_TO_CASHRUB".to_owned());
        supported_symbols.push("CASHRUB_TO_USDTERC".to_owned());
        supported_symbols.push("USDTTRC_TO_CASHRUB".to_owned());
        supported_symbols.push("ETH_TO_CASHRUB".to_owned());
        supported_symbols.push("CASHUSD_TO_USDTERC".to_owned());
        supported_symbols.push("CASHRUB_TO_USDTTRC".to_owned());
        supported_symbols.push("CASHUSD_TO_USDTTRC".to_owned());
        supported_symbols.push("CASHRUB_TO_ETH".to_owned());
        supported_symbols.push("CASHRUB_TO_BTC".to_owned());
        supported_symbols.push("CASHUSD_TO_ETH".to_owned());
        supported_symbols.push("CASHUSD_TO_BTC".to_owned());
        supported_symbols.push("ETH_TO_CASHUSD".to_owned());
        supported_symbols.push("BTC_TO_CASHUSD".to_owned());
        supported_symbols.push("USDTERC_TO_CASHUSD".to_owned());
        supported_symbols.push("USDTTRC_TO_CASHUSD".to_owned());
        assert(texts(supported_symbols@) =~= listed_symbols());
        NewLineProvider { config, supported_symbols }
    }

    /// The name of the provider.
    pub fn name(&self) -> (name: &'static str)
        ensures
            name@ == "NewLineProvider"@,
    {
        "NewLineProvider"
    }

    /// Map domain currency pair to NewLine provider symbol.
    ///
    /// Both stablecoin pairs map to the same symbol since the NewLine API
    /// doesn't distinguish between different ERC20 stablecoins.
    pub fn map_currency_pair(&self, pair: &CurrencyPair) -> (symbol: Option<String>)
        ensures
            symbol matches Some(s) && s@ == symbol_of(*pair),
    {
        match pair {
            CurrencyPair::USDCe2RUB => Some("USDTERC_TO_CASHRUB".to_owned()),
            CurrencyPair::USDTe2RUB => Some("USDTERC_TO_CASHRUB".to_owned()),
            CurrencyPair::USD2RUB => Some("CASHUSD_TO_USDTERC".to_owned()),
        }
    }

    /// Check if this provider supports the given currency pair.
    pub fn supports_currency_pair(&self, pair: &CurrencyPair) -> (b: bool)
        ensures
            b == self.supports(*pair),
    {
        proof {
            use_type_invariant(self);
        }
        match self.map_currency_pair(pair) {
            Some(symbol) => {
                let mut i: usize = 0;
                while i < self.supported_symbols.len()
                    invariant
                        i <= self.supported_symbols.len(),
                        texts(self.supported_symbols@) == listed_symbols(),
                        symbol@ == symbol_of(*pair),
                        forall|j: int| 0 <= j < i ==> listed_symbols()[j] != symbol@,
                    decreases self.supported_symbols.len() - i,
                {
                    assert(listed_symbols()[i as int] == self.supported_symbols@[i as int]@);
                    if same_text(self.supported_symbols[i].as_str(), symbol.as_str()) {
                        return true;
                    }
                    i = i + 1;
                }
                false
            },
            None => false,
        }
    }

    /// The request that asks for the rates from which the price of `pair` is
    /// read: a `GET` to the direction list under the base URL, asking for
    /// JSON and carrying the session cookie.
    pub fn request(&self, pair: &CurrencyPair) -> (request: PriceRequest)
        ensures
            request.method@ == "GET"@,
            request.url@ == self.base_url() + "/api/direction/"@,
            request.accept@ == "application/json"@,
            request.cookie@ == self.cookie(),
    {
        let mut url = self.config.base_url.clone();
        url.append("/api/direction/");
        PriceRequest {
            method: "GET".to_owned(),
            url,
            accept: "application/json".to_owned(),
            cookie: self.config.cookie.clone(),
        }
    }

    /// Find price data in the preferred city: the first entry, in reading
    /// order, of a block of that city whose source and destination make up
    /// `symbol`.
    pub fn find_price_in_city_data<'a, R>(
        &self,
        city_data_list: &'a [NewLineCityData<R>],
        symbol: &str,
    ) -> (found: Option<&'a NewLineToData<R>>)
        ensures
            is_first_entry(city_data_list@, self.preferred_city(), symbol@, found),
    {
        let ghost cities = city_data_list@;
        let ghost city = self.preferred_city();
        let mut c: usize = 0;
        while c < city_data_list.len()
            invariant
                c <= city_data_list.len(),
                cities == city_data_list@,
                city == self.preferred_city(),
                forall|c2: int, e2: int, t2: int| #[trigger]
                    entry_matches(cities, c2, e2, t2, city, symbol@) ==> c2 >= c,
            decreases city_data_list.len() - c,
        {
            let city_data = &city_data_list[c];
            if same_text(city_data.city_code.as_str(), self.config.preferred_city.as_str()) {
                let mut e: usize = 0;
                while e < city_data.data.len()
                    invariant
                        c < city_data_list.len(),
                        e <= city_data.data.len(),
                        cities == city_data_list@,
                        *city_data == cities[c as int],
                        city == self.preferred_city(),
                        city_data.city_code@ == city,
                        forall|c2: int, e2: int, t2: int| #[trigger]
                            entry_matches(cities, c2, e2, t2, city, symbol@) ==> c2 > c || (c2
                                == c && e2 >= e),
                    decreases city_data.data.len() - e,
                {
                    let exchange = &city_data.data[e];
                    let mut t: usize = 0;
                    while t < exchange.to_data.len()
                        invariant
                            c < city_data_list.len(),
                            e < city_data.data.len(),
                            t <= exchange.to_data.len(),
                            cities == city_data_list@,
                            *city_data == cities[c as int],
                            *exchange == city_data.data@[e as int],
                            city == self.preferred_city(),
                            city_data.city_code@ == city,
                            forall|c2: int, e2: int, t2: int| #[trigger]
                                entry_matches(cities, c2, e2, t2, city, symbol@)
                                    ==> !comes_before(c2, e2, t2, c as int, e as int, t as int),
                        decreases exchange.to_data.len() - t,
                    {
                        let to_data = &exchange.to_data[t];
                        let mut current_symbol = exchange.from_.clone();
                        current_symbol.append("_TO_");
                        current_symbol.append(to_data.to.as_str());
                        if same_text(current_symbol.as_str(), symbol) {
                            assert(entry_matches(
                                cities,
                                c as int,
                                e as int,
                                t as int,
                                city,
                                symbol@,
                            ));
                            return Some(to_data);
                        }
                        t = t + 1;
                    }
                    e = e + 1;
                }
            }
            c = c + 1;
        }
        None
    }

    /// Reads the outcome of a lookup for `pair` from what came of the
    /// request.
    ///
    /// - No response: a network error with the transport's text.
    /// - A status outside 200 to 299: an API error that names the status.
    /// - A body that could not be decoded: a parsing error with the
    ///   decoder's text.
    /// - Otherwise the first entry of the preferred city under the symbol of
    ///   `pair`, or a provider error where the answer holds none.
    pub fn read_reply<'a, R>(&self, pair: &CurrencyPair, reply: &'a UpstreamReply<R>) -> (result:
        Result<&'a NewLineToData<R>, PriceProviderError>)
        ensures
            match *reply {
                UpstreamReply::Unreachable(why) => result matches Err(e) && e@ == (ErrorView {
                    kind: ErrorKind::Network,
                    detail: why@,
                }),
                UpstreamReply::Answered { status, body } => if !status.success() {
                    result matches Err(e) && e@ == (ErrorView {
                        kind: ErrorKind::Api,
                        detail: status_failure_text(status.code()),
                    })
                } else {
                    match body {
                        Err(why) => result matches Err(e) && e@ == (ErrorView {
                            kind: ErrorKind::Parsing,
                            detail: why@,
                        }),
                        Ok(cities) => match result {
                            Ok(entry) => is_first_entry(
                                cities@,
                                self.preferred_city(),
                                symbol_of(*pair),
                                Some(entry),
                            ),
                            Err(e) => {
                                &&& is_first_entry(
                                    cities@,
                                    self.preferred_city(),
                                    symbol_of(*pair),
                                    None,
                                )
                                &&& e@ == (ErrorView {
                                    kind: ErrorKind::Provider,
                                    detail: missing_symbol_text(*pair),
                                })
                            },
                        },
                    }
                },
            },
    {
        match reply {
            UpstreamReply::Unreachable(why) => Err(PriceProviderError::Network(why.clone())),
            UpstreamReply::Answered { status, body } => {
                if !status.is_success() {
                    let mut detail = "API request failed with status: ".to_owned();
                    let line = status.to_string();
                    detail.append(line.as_str());
                    return Err(PriceProviderError::Api(detail));
                }
                match body {
                    Err(why) => Err(PriceProviderError::Parsing(why.clone())),
                    Ok(cities) => match self.map_currency_pair(pair) {
                        Some(symbol) => match self.find_price_in_city_data(
                            cities.as_slice(),
                            symbol.as_str(),
                        ) {
                            Some(entry) => Ok(entry),
                            None => {
                                let mut detail = "Symbol ".to_owned();
                                detail.append(symbol.as_str());
                                detail.append(" not found in API response for pair ");
                                detail.append(pair.as_str());
                                Err(PriceProviderError::Provider(detail))
                            },
                        },
                        None => {
                            let mut detail = "Currency pair ".to_owned();
                            detail.append(pair.as_str());
                            detail.append(" not supported by this provider");
                            Err(PriceProviderError::Provider(detail))
                        },
                    },
                }
            },
        }
    }

    /// NewLine lists the symbol of every pair, so the provider quotes them
    /// all.
    pub proof fn lemma_supports_every_pair(&self, pair: CurrencyPair)
        ensures
            self.supports(pair),
    {
        assert(listed_symbols()[1] == "USDTERC_TO_CASHRUB"@);
        assert(listed_symbols()[5] == "CASHUSD_TO_USDTERC"@);
    }
}

} // verus!
