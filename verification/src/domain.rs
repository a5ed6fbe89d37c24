//! The currency pairs the bot quotes, the price record and the errors a
//! price lookup can end in.

use crate::text::{debug_quote, debug_quoted, same_text};
use vstd::prelude::*;

verus! {

/// A price for a currency pair. The price is carried as the provider gave it;
/// nothing here computes with it.
#[derive(Debug, Clone, PartialEq)]
pub struct PriceData<P> {
    pub pair: CurrencyPair,
    pub price: P,
}

/// What went wrong in a price lookup, without the detail text.
#[derive(Debug, Clone, Copy, PartialEq, Eq, Structural)]
pub enum ErrorKind {
    /// The request did not get through.
    Network,
    /// The source answered with a status other than success.
    Api,
    /// The answer could not be decoded.
    Parsing,
    /// The answer was well-formed but did not hold what was asked for.
    Provider,
}

/// An error of a price provider: its kind and a text for humans.
#[derive(Debug, Clone, PartialEq, Eq)]
pub enum PriceProviderError {
    Network(String),
    Api(String),
    Parsing(String),
    Provider(String),
}

/// An error as a plain value.
pub struct ErrorView {
    pub kind: ErrorKind,
    pub detail: Seq<char>,
}

impl ErrorKind {
    /// The words that introduce an error of this kind in its message.
    pub open spec fn label(self) -> Seq<char> {
        match self {
            ErrorKind::Network => "Network error: "@,
            ErrorKind::Api => "API error: "@,
            ErrorKind::Parsing => "Parsing error: "@,
            ErrorKind::Provider => "Provider-specific error: "@,
        }
    }

    /// The name of the variant of [`PriceProviderError`] for this kind.
    pub open spec fn variant_name(self) -> Seq<char> {
        match self {
            ErrorKind::Network => "Network"@,
            ErrorKind::Api => "Api"@,
            ErrorKind::Parsing => "Parsing"@,
            ErrorKind::Provider => "Provider"@,
        }
    }
}

impl ErrorView {
    /// The message of the error: the label of its kind, then the detail.
    pub open spec fn message(self) -> Seq<char> {
        self.kind.label() + self.detail
    }

    /// The error as `{:?}` writes it: the variant's name and, in
    /// parentheses, the detail as a quoted string.
    pub open spec fn debug_text(self) -> Seq<char> {
        self.kind.variant_name() + "("@ + debug_quoted(self.detail) + ")"@
    }
}

impl View for PriceProviderError {
    type V = ErrorView;

    open spec fn view(&self) -> ErrorView {
        match self {
            PriceProviderError::Network(d) => ErrorView { kind: ErrorKind::Network, detail: d@ },
            PriceProviderError::Api(d) => ErrorView { kind: ErrorKind::Api, detail: d@ },
            PriceProviderError::Parsing(d) => ErrorView { kind: ErrorKind::Parsing, detail: d@ },
            PriceProviderError::Provider(d) => ErrorView { kind: ErrorKind::Provider, detail: d@ },
        }
    }
}

impl PriceProviderError {
    /// The kind of the error.
    pub fn kind(&self) -> (k: ErrorKind)
        ensures
            k == self@.kind,
    {
        match self {
            PriceProviderError::Network(_) => ErrorKind::Network,
            PriceProviderError::Api(_) => ErrorKind::Api,
            PriceProviderError::Parsing(_) => ErrorKind::Parsing,
            PriceProviderError::Provider(_) => ErrorKind::Provider,
        }
    }

    /// The detail text of the error.
    pub fn detail(&self) -> (d: &str)
        ensures
            d@ == self@.detail,
    {
        match self {
            PriceProviderError::Network(d) => d.as_str(),
            PriceProviderError::Api(d) => d.as_str(),
            PriceProviderError::Parsing(d) => d.as_str(),
            PriceProviderError::Provider(d) => d.as_str(),
        }
    }

    /// The message of the error.
    pub fn to_string(&self) -> (s: String)
        ensures
            s@ == self@.message(),
    {
        let label = match self {
            PriceProviderError::Network(_) => "Network error: ",
            PriceProviderError::Api(_) => "API error: ",
            PriceProviderError::Parsing(_) => "Parsing error: ",
            PriceProviderError::Provider(_) => "Provider-specific error: ",
        };
        let mut s = label.to_owned();
        s.append(self.detail());
        s
    }

    /// The error as `{:?}` writes it.
    pub fn debug_string(&self) -> (s: String)
        ensures
            s@ == self@.debug_text(),
    {
        let name = match self {
            PriceProviderError::Network(_) => "Network",
            PriceProviderError::Api(_) => "Api",
            PriceProviderError::Parsing(_) => "Parsing",
            PriceProviderError::Provider(_) => "Provider",
        };
        let mut s = name.to_owned();
        s.append("(");
        let quoted = debug_quote(self.detail());
        s.append(quoted.as_str());
        s.append(")");
        s
    }
}

/// The currency pairs the bot can quote.
#[derive(Debug, Clone, Copy, PartialEq, Eq, Hash, Structural)]
pub enum CurrencyPair {
    /// USDC (ERC20) to RUB
    USDCe2RUB,
    /// USDT (ERC20) to RUB
    USDTe2RUB,
    /// USD to RUB
    USD2RUB,
}

impl CurrencyPair {
    /// The text by which the pair is shown and entered.
    pub open spec fn text(self) -> Seq<char> {
        match self {
            CurrencyPair::USDCe2RUB => "USDCe/RUB"@,
            CurrencyPair::USDTe2RUB => "USDTe/RUB"@,
            CurrencyPair::USD2RUB => "USD/RUB"@,
        }
    }

    /// The pair that `s` names, if it names one.
    pub open spec fn parse(s: Seq<char>) -> Option<CurrencyPair> {
        if s == CurrencyPair::USDCe2RUB.text() {
            Some(CurrencyPair::USDCe2RUB)
        } else if s == CurrencyPair::USDTe2RUB.text() {
            Some(CurrencyPair::USDTe2RUB)
        } else if s == CurrencyPair::USD2RUB.text() {
            Some(CurrencyPair::USD2RUB)
        } else {
            None
        }
    }

    /// Reads a pair from its text. Any other text gives `None`.
    pub fn from_str(s: &str) -> (r: Option<CurrencyPair>)
        ensures
            r == CurrencyPair::parse(s@),
    {
        if same_text(s, "USDCe/RUB") {
            Some(CurrencyPair::USDCe2RUB)
        } else if same_text(s, "USDTe/RUB") {
            Some(CurrencyPair::USDTe2RUB)
        } else if same_text(s, "USD/RUB") {
            Some(CurrencyPair::USD2RUB)
        } else {
            None
        }
    }

    /// The text of the pair.
    pub fn as_str(&self) -> (s: &'static str)
        ensures
            s@ == self.text(),
    {
        match self {
            CurrencyPair::USDCe2RUB => "USDCe/RUB",
            CurrencyPair::USDTe2RUB => "USDTe/RUB",
            CurrencyPair::USD2RUB => "USD/RUB",
        }
    }

    /// The text of the pair, owned.
    pub fn to_string(&self) -> (s: String)
        ensures
            s@ == self.text(),
    {
        self.as_str().to_owned()
    }

    /// The three texts differ from one another.
    pub proof fn lemma_texts_differ(p: CurrencyPair, q: CurrencyPair)
        ensures
            p.text() == q.text() ==> p == q,
    {
        reveal_strlit("USDCe/RUB");
        reveal_strlit("USDTe/RUB");
        reveal_strlit("USD/RUB");
        if p != q && p.text() == q.text() {
            assert(p.text().len() == q.text().len());
            assert(p.text()[3] == q.text()[3]);
        }
    }

    /// Reading the text of a pair gives the pair back.
    pub proof fn lemma_parse_text(p: CurrencyPair)
        ensures
            CurrencyPair::parse(p.text()) == Some(p),
    {
        CurrencyPair::lemma_texts_differ(p, CurrencyPair::USDCe2RUB);
        CurrencyPair::lemma_texts_differ(p, CurrencyPair::USDTe2RUB);
        CurrencyPair::lemma_texts_differ(p, CurrencyPair::USD2RUB);
    }

    /// A text is read as a pair only if it is that pair's text.
    pub proof fn lemma_parse_is_inverse(s: Seq<char>, p: CurrencyPair)
        ensures
            CurrencyPair::parse(s) == Some(p) <==> s == p.text(),
    {
        CurrencyPair::lemma_parse_text(p);
    }
}

/// Every pair, in the order in which help texts list them.
pub open spec fn all_pairs() -> Seq<CurrencyPair> {
    seq![CurrencyPair::USDCe2RUB, CurrencyPair::USDTe2RUB, CurrencyPair::USD2RUB]
}

/// Every pair the bot can quote.
pub fn get_all_currency_pairs() -> (r: Vec<CurrencyPair>)
    ensures
        r@ == all_pairs(),
{
    let mut v: Vec<CurrencyPair> = Vec::new();
    v.push(CurrencyPair::USDCe2RUB);
    v.push(CurrencyPair::USDTe2RUB);
    v.push(CurrencyPair::USD2RUB);
    assert(v@ =~= all_pairs());
    v
}

} // verus!
