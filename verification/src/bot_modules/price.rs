//! The module that quotes prices.

use crate::bot_modules::Module;
use crate::domain::{CurrencyPair, ErrorKind, ErrorView, PriceData, PriceProviderError};
use crate::price_service::provider::PriceProvider;
use crate::price_service::PriceService;
use crate::text::{
    lemma_occurs_in_middle, occurs_in, same_text, split_whitespace, texts, words,
};
use std::sync::Arc;
use vstd::prelude::*;

verus! {

/// What a message to the price module asks for.
#[derive(Debug, Clone, Copy, PartialEq, Eq, Structural)]
pub enum PriceCommand {
    /// The price of this pair.
    Lookup(CurrencyPair),
    /// A price, but of nothing that is a pair.
    InvalidPair,
    /// Something else: the message is not the command and one argument.
    Usage,
}

/// What the price module answers.
#[derive(Debug)]
pub enum PriceReply<T> {
    /// The price that was found for the pair that was asked for. The text
    /// to send is made by [`format_quote`], from the price written with two
    /// decimals.
    Quote { requested: CurrencyPair, data: PriceData<T> },
    /// The lookup failed. `text` is what to send; `error` is what went
    /// wrong, kept for the log and not for the chat.
    Failed { text: String, error: PriceProviderError },
    /// A text to send as it is.
    Text(String),
}

/// A [`PriceReply`] as a plain value.
pub enum PriceReplyView<T> {
    Quote { requested: CurrencyPair, data: PriceData<T> },
    Failed { text: Seq<char>, error: ErrorView },
    Text(Seq<char>),
}

impl<T> View for PriceReply<T> {
    type V = PriceReplyView<T>;

    open spec fn view(&self) -> PriceReplyView<T> {
        match self {
            PriceReply::Quote { requested, data } => PriceReplyView::Quote {
                requested: *requested,
                data: *data,
            },
            PriceReply::Failed { text, error } => PriceReplyView::Failed {
                text: text@,
                error: error@,
            },
            PriceReply::Text(text) => PriceReplyView::Text(text@),
        }
    }
}

/// What a message asks for whose words are `parts`: a lookup where they are
/// the command and one more word, and that word names a pair.
pub open spec fn command_from(parts: Seq<Seq<char>>) -> PriceCommand {
    if parts.len() == 2 && parts[0] == "/price"@ {
        match CurrencyPair::parse(parts[1]) {
            Some(pair) => PriceCommand::Lookup(pair),
            None => PriceCommand::InvalidPair,
        }
    } else {
        PriceCommand::Usage
    }
}

/// What a message with `text` asks for: what its words ask for.
pub open spec fn command_of(text: Seq<char>) -> PriceCommand {
    command_from(words(text))
}

/// The reply to a request for a price of something that is no pair.
pub open spec fn invalid_pair_text() -> Seq<char> {
    "❌ Invalid currency pair format. Available pairs: "@ + CurrencyPair::USD2RUB.text() + ", "@
        + CurrencyPair::USDCe2RUB.text() + ", "@ + CurrencyPair::USDTe2RUB.text()
}

/// The reply to a message that is not the command and one argument.
pub open spec fn usage_text() -> Seq<char> {
    "Usage: /price CURRENCY_PAIR\nAvailable pairs: "@ + CurrencyPair::USDCe2RUB.text() + ", "@
        + CurrencyPair::USDTe2RUB.text() + ", "@ + CurrencyPair::USD2RUB.text()
        + "\nExample: /price USD/RUB"@
}

/// The reply that quotes a price: the pair that was asked for, the pair
/// that the price is for, and the price as `price` writes it.
pub open spec fn quote_text(
    requested: CurrencyPair,
    quoted: CurrencyPair,
    price: Seq<char>,
) -> Seq<char> {
    "💰 "@ + requested.text() + " Price\n\nCurrency Pair: "@ + quoted.text() + "\nPrice: "@ + price
}

/// The words that introduce an error of each kind in a reply.
pub open spec fn error_label(kind: ErrorKind) -> Seq<char> {
    match kind {
        ErrorKind::Network => "🌐 Network error: "@,
        ErrorKind::Api => "🔌 API error: "@,
        ErrorKind::Parsing => "📜 Parsing error: "@,
        ErrorKind::Provider => "❌ Provider error: "@,
    }
}

/// What a reply tells the chat about an error of each kind.
pub open spec fn error_advice(kind: ErrorKind) -> Seq<char> {
    match kind {
        ErrorKind::Network => "the price source could not be reached. Please try again later."@,
        ErrorKind::Api => "the price source turned the request down. Please try again later."@,
        ErrorKind::Parsing => "the answer of the price source could not be read."@,
        ErrorKind::Provider => "no price is available for this pair right now."@,
    }
}

/// The reply that reports a failed lookup: one text for each kind of error,
/// with nothing of the error's detail in it.
pub open spec fn error_text(kind: ErrorKind) -> Seq<char> {
    error_label(kind) + error_advice(kind)
}

/// The reply to a lookup of `pair` that ended in `result`.
pub open spec fn answer<T>(
    pair: CurrencyPair,
    result: Result<PriceData<T>, PriceProviderError>,
) -> PriceReplyView<T> {
    match result {
        Ok(data) => PriceReplyView::Quote { requested: pair, data },
        Err(error) => PriceReplyView::Failed { text: error_text(error@.kind), error: error@ },
    }
}

/// Errors of different kinds are reported with different texts.
pub proof fn lemma_error_texts_differ(first: ErrorKind, second: ErrorKind)
    ensures
        error_text(first) == error_text(second) ==> first == second,
{
    reveal_strlit("🌐 Network error: ");
    reveal_strlit("🔌 API error: ");
    reveal_strlit("📜 Parsing error: ");
    reveal_strlit("❌ Provider error: ");
    assert(error_text(first)[0] == error_label(first)[0]);
    assert(error_text(second)[0] == error_label(second)[0]);
}

/// Both replies that tell how the command is used list every pair.
pub proof fn lemma_replies_list_every_pair(pair: CurrencyPair)
    ensures
        occurs_in(pair.text(), invalid_pair_text()),
        occurs_in(pair.text(), usage_text()),
{
    let usd = CurrencyPair::USD2RUB.text();
    let usdc = CurrencyPair::USDCe2RUB.text();
    let usdt = CurrencyPair::USDTe2RUB.text();
    let sep = ", "@;
    let invalid = "❌ Invalid currency pair format. Available pairs: "@;
    let usage = "Usage: /price CURRENCY_PAIR\nAvailable pairs: "@;
    let example = "\nExample: /price USD/RUB"@;
    match pair {
        CurrencyPair::USD2RUB => {
            lemma_occurs_in_middle(invalid, usd, sep + usdc + sep + usdt);
            assert(invalid + usd + (sep + usdc + sep + usdt) =~= invalid_pair_text());
            lemma_occurs_in_middle(usage + usdc + sep + usdt + sep, usd, example);
        },
        CurrencyPair::USDCe2RUB => {
            lemma_occurs_in_middle(invalid + usd + sep, usdc, sep + usdt);
            assert(invalid + usd + sep + usdc + (sep + usdt) =~= invalid_pair_text());
            lemma_occurs_in_middle(usage, usdc, sep + usdt + sep + usd + example);
            assert(usage + usdc + (sep + usdt + sep + usd + example) =~= usage_text());
        },
        CurrencyPair::USDTe2RUB => {
            lemma_occurs_in_middle(invalid + usd + sep + usdc + sep, usdt, Seq::empty());
            assert(invalid + usd + sep + usdc + sep + usdt + Seq::<char>::empty()
                =~= invalid_pair_text());
            lemma_occurs_in_middle(usage + usdc + sep, usdt, sep + usd + example);
            assert(usage + usdc + sep + usdt + (sep + usd + example) =~= usage_text());
        },
    }
}

/// The reply that quotes a price shows the pair that was asked for, the
/// pair that the price is for, and the price.
pub proof fn lemma_quote_shows_pair_and_price(
    requested: CurrencyPair,
    quoted: CurrencyPair,
    price: Seq<char>,
)
    ensures
        occurs_in(requested.text(), quote_text(requested, quoted, price)),
        occurs_in(quoted.text(), quote_text(requested, quoted, price)),
        occurs_in(price, quote_text(requested, quoted, price)),
{
    let head = "💰 "@;
    let middle = " Price\n\nCurrency Pair: "@;
    let tail = "\nPrice: "@;
    let whole = quote_text(requested, quoted, price);
    lemma_occurs_in_middle(head, requested.text(), middle + quoted.text() + tail + price);
    assert(head + requested.text() + (middle + quoted.text() + tail + price) =~= whole);
    lemma_occurs_in_middle(head + requested.text() + middle, quoted.text(), tail + price);
    assert(head + requested.text() + middle + quoted.text() + (tail + price) =~= whole);
    lemma_occurs_in_middle(
        head + requested.text() + middle + quoted.text() + tail,
        price,
        Seq::empty(),
    );
    assert(head + requested.text() + middle + quoted.text() + tail + price + Seq::<char>::empty()
        =~= whole);
}

/// What a message asks for whose words are `parts`.
pub fn command_from_words(parts: &Vec<String>) -> (command: PriceCommand)
    ensures
        command == command_from(texts(parts@)),
{
    assert(texts(parts@).len() == parts@.len());
    if parts.len() == 2 {
        assert(texts(parts@)[0] == parts@[0]@);
        assert(texts(parts@)[1] == parts@[1]@);
        if same_text(parts[0].as_str(), "/price") {
            return match CurrencyPair::from_str(parts[1].as_str()) {
                Some(pair) => PriceCommand::Lookup(pair),
                None => PriceCommand::InvalidPair,
            };
        }
    }
    PriceCommand::Usage
}

/// What a message with `text` asks for.
pub fn parse_command(text: &str) -> (command: PriceCommand)
    ensures
        command == command_of(text@),
{
    let parts = split_whitespace(text);
    command_from_words(&parts)
}

/// The reply to a request for a price of something that is no pair.
pub fn invalid_pair_reply() -> (text: String)
    ensures
        text@ == invalid_pair_text(),
{
    let mut text = "❌ Invalid currency pair format. Available pairs: ".to_owned();
    text.append(CurrencyPair::USD2RUB.as_str());
    text.append(", ");
    text.append(CurrencyPair::USDCe2RUB.as_str());
    text.append(", ");
    text.append(CurrencyPair::USDTe2RUB.as_str());
    text
}

/// The reply to a message that is not the command and one argument.
pub fn usage_reply() -> (text: String)
    ensures
        text@ == usage_text(),
{
    let mut text = "Usage: /price CURRENCY_PAIR\nAvailable pairs: ".to_owned();
    text.append(CurrencyPair::USDCe2RUB.as_str());
    text.append(", ");
    text.append(CurrencyPair::USDTe2RUB.as_str());
    text.append(", ");
    text.append(CurrencyPair::USD2RUB.as_str());
    text.append("\nExample: /price USD/RUB");
    text
}

/// The reply that quotes a price. `price` is the price as it is to be
/// shown.
pub fn format_quote(requested: &CurrencyPair, quoted: &CurrencyPair, price: &str) -> (text: String)
    ensures
        text@ == quote_text(*requested, *quoted, price@),
{
    let mut text = "💰 ".to_owned();
    text.append(requested.as_str());
    text.append(" Price\n\nCurrency Pair: ");
    text.append(quoted.as_str());
    text.append("\nPrice: ");
    text.append(price);
    text
}

/// The reply that reports a failed lookup: the text for the kind of the
/// error. The detail of the error is not shown.
pub fn format_error(error: &PriceProviderError) -> (text: String)
    ensures
        text@ == error_text(error@.kind),
{
    match error {
        PriceProviderError::Network(_) => {
            let mut text = "🌐 Network error: ".to_owned();
            text.append("the price source could not be reached. Please try again later.");
            text
        },
        PriceProviderError::Api(_) => {
            let mut text = "🔌 API error: ".to_owned();
            text.append("the price source turned the request down. Please try again later.");
            text
        },
        PriceProviderError::Parsing(_) => {
            let mut text = "📜 Parsing error: ".to_owned();
            text.append("the answer of the price source could not be read.");
            text
        },
        PriceProviderError::Provider(_) => {
            let mut text = "❌ Provider error: ".to_owned();
            text.append("no price is available for this pair right now.");
            text
        },
    }
}

/// The reply to a lookup of `pair` that ended in `result`.
pub fn reply_to_lookup<T>(
    pair: CurrencyPair,
    result: Result<PriceData<T>, PriceProviderError>,
) -> (reply: PriceReply<T>)
    ensures
        reply@ == answer(pair, result),
{
    match result {
        Ok(data) => PriceReply::Quote { requested: pair, data },
        Err(error) => {
            let text = format_error(&error);
            PriceReply::Failed { text, error }
        },
    }
}

/// Price module for handling price-related commands.
pub struct PriceModule<P: PriceProvider> {
    price_service: Arc<PriceService<P>>,
}

impl<P: PriceProvider> PriceModule<P> {
    /// The price service that the module asks.
    pub closed spec fn service(&self) -> PriceService<P> {
        *self.price_service
    }

    /// Create a new PriceModule instance.
    pub fn new(price_service: Arc<PriceService<P>>) -> (module: Self)
        ensures
            module.service() == *price_service,
    {
        PriceModule { price_service }
    }

    /// The reply to a message with `text`; none for a message without
    /// text.
    ///
    /// - The command and the text of a pair: the price service is asked, and
    ///   the reply quotes its price or, where the lookup failed, is the text
    ///   for the kind of the error.
    /// - The command and another word: the reply says that the word is no
    ///   pair and lists the pairs.
    /// - Anything else: the reply explains the command.
    pub fn handle(&self, text: Option<&str>) -> (reply: Option<PriceReply<P::Price>>)
        ensures
            match text {
                None => reply is None,
                Some(text) => reply matches Some(r) && match command_of(text@) {
                    PriceCommand::Lookup(pair) => exists|
                        result: Result<PriceData<P::Price>, PriceProviderError>,
                    |
                        #[trigger] self.service().may_answer(pair, result) && r@ == answer(
                            pair,
                            result,
                        ),
                    PriceCommand::InvalidPair => r@ == PriceReplyView::<P::Price>::Text(
                        invalid_pair_text(),
                    ),
                    PriceCommand::Usage => r@ == PriceReplyView::<P::Price>::Text(usage_text()),
                },
            },
    {
        match text {
            None => None,
            Some(text) => match parse_command(text) {
                PriceCommand::Lookup(pair) => {
                    let result = self.price_service.get_price(&pair);
                    let ghost outcome = result;
                    let reply = reply_to_lookup(pair, result);
                    assert(self.service().may_answer(pair, outcome));
                    Some(reply)
                },
                PriceCommand::InvalidPair => Some(PriceReply::Text(invalid_pair_reply())),
                PriceCommand::Usage => Some(PriceReply::Text(usage_reply())),
            },
        }
    }
}

impl<P: PriceProvider> Module for PriceModule<P> {
    fn name(&self) -> (name: &str)
        ensures
            name@ == "PriceModule"@,
    {
        "PriceModule"
    }

    fn commands(&self) -> (commands: Vec<&str>)
        ensures
            commands@.len() == 1,
            commands@[0]@ == "/price"@,
    {
        let mut commands: Vec<&str> = Vec::new();
        commands.push("/price");
        commands
    }
}

} // verus!
