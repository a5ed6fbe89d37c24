//! The price service: an ordered list of providers, asked in turn until one
//! of them answers with a price.

use crate::domain::{CurrencyPair, ErrorKind, ErrorView, PriceData, PriceProviderError};
use crate::price_service::provider::PriceProvider;
use crate::text::{lemma_occurs_in_middle, lemma_occurs_in_wider, occurs_in};
use vstd::prelude::*;

verus! {

/// The errors written one after another as `{:?}` writes them, with a comma
/// and a space between two neighbours.
pub open spec fn joined_debug(errors: Seq<ErrorView>) -> Seq<char>
    decreases errors.len(),
{
    if errors.len() == 0 {
        Seq::empty()
    } else if errors.len() == 1 {
        errors[0].debug_text()
    } else {
        joined_debug(errors.drop_last()) + ", "@ + errors.last().debug_text()
    }
}

/// The detail of the error that reports that no provider gave a price for
/// `pair`: the pair, then the list of the providers' errors in square
/// brackets.
pub open spec fn failure_text(pair: CurrencyPair, errors: Seq<ErrorView>) -> Seq<char> {
    "All providers failed to fetch price for "@ + pair.text() + ": "@ + "["@ + joined_debug(errors)
        + "]"@
}

/// The views of the errors of `errors`.
pub open spec fn error_views(errors: Seq<PriceProviderError>) -> Seq<ErrorView> {
    errors.map_values(|e: PriceProviderError| e@)
}

/// The errors of a run of attempts that all failed.
pub open spec fn failures<T>(
    attempts: Seq<Result<PriceData<T>, PriceProviderError>>,
) -> Seq<ErrorView> {
    Seq::new(attempts.len(), |i: int| attempts[i]->Err_0@)
}

/// Whether `result` is what a lookup for `pair` comes to after the providers
/// asked gave `attempts`, in this order: the first price among them, or, if
/// there is none, a provider error that lists every failure.
pub open spec fn settles<T>(
    pair: CurrencyPair,
    attempts: Seq<Result<PriceData<T>, PriceProviderError>>,
    result: Result<PriceData<T>, PriceProviderError>,
) -> bool {
    match result {
        Ok(data) => exists|i: int|
            0 <= i < attempts.len() && #[trigger] attempts[i] == Ok::<
                PriceData<T>,
                PriceProviderError,
            >(data) && forall|j: int| 0 <= j < i ==> (#[trigger] attempts[j]) is Err,
        Err(error) => {
            &&& forall|j: int| 0 <= j < attempts.len() ==> (#[trigger] attempts[j]) is Err
            &&& error@ == ErrorView {
                kind: ErrorKind::Provider,
                detail: failure_text(pair, failures(attempts)),
            }
        },
    }
}

/// A run of answers settles to one result only: two results that it settles
/// to are both the same price, or both the same error.
pub proof fn lemma_settles_once<T>(
    pair: CurrencyPair,
    attempts: Seq<Result<PriceData<T>, PriceProviderError>>,
    first: Result<PriceData<T>, PriceProviderError>,
    second: Result<PriceData<T>, PriceProviderError>,
)
    requires
        settles(pair, attempts, first),
        settles(pair, attempts, second),
    ensures
        match (first, second) {
            (Ok(a), Ok(b)) => a == b,
            (Err(a), Err(b)) => a@ == b@,
            _ => false,
        },
{
    if first is Ok {
        let a = first->Ok_0;
        let i = choose|i: int|
            0 <= i < attempts.len() && #[trigger] attempts[i] == Ok::<
                PriceData<T>,
                PriceProviderError,
            >(a) && forall|j: int| 0 <= j < i ==> (#[trigger] attempts[j]) is Err;
        if second is Ok {
            let b = second->Ok_0;
            let k = choose|k: int|
                0 <= k < attempts.len() && #[trigger] attempts[k] == Ok::<
                    PriceData<T>,
                    PriceProviderError,
                >(b) && forall|j: int| 0 <= j < k ==> (#[trigger] attempts[j]) is Err;
            if i < k {
                assert(attempts[i] is Err);
            }
            if k < i {
                assert(attempts[k] is Err);
            }
        } else {
            assert(attempts[i] is Err);
        }
    } else if second is Ok {
        let b = second->Ok_0;
        let k = choose|k: int|
            0 <= k < attempts.len() && #[trigger] attempts[k] == Ok::<
                PriceData<T>,
                PriceProviderError,
            >(b);
        assert(attempts[k] is Err);
    }
}

/// The text that lists `errors` as `{:?}` would.
fn join_debug(errors: &Vec<PriceProviderError>) -> (s: String)
    ensures
        s@ == joined_debug(error_views(errors@)),
{
    let mut s = String::new();
    let mut i: usize = 0;
    assert(error_views(errors@).take(0) == Seq::<ErrorView>::empty());
    while i < errors.len()
        invariant
            i <= errors.len(),
            s@ == joined_debug(error_views(errors@).take(i as int)),
        decreases errors.len() - i,
    {
        let ghost views = error_views(errors@);
        let ghost head = views.take(i + 1);
        assert(head.drop_last() == views.take(i as int));
        assert(head.last() == errors@[i as int]@);
        if i > 0 {
            s.append(", ");
        }
        let one = errors[i].debug_string();
        s.append(one.as_str());
        assert(s@ == joined_debug(head)) by {
            if i == 0 {
                assert(joined_debug(views.take(0)) == Seq::<char>::empty());
                assert(Seq::<char>::empty() + one@ == one@);
            }
        }
        i = i + 1;
    }
    assert(error_views(errors@).take(errors.len() as int) == error_views(errors@));
    s
}

/// The error that reports that no provider gave a price for `pair`, with the
/// providers' `errors`.
fn all_failed(pair: &CurrencyPair, errors: &Vec<PriceProviderError>) -> (e: PriceProviderError)
    ensures
        e@ == (ErrorView {
            kind: ErrorKind::Provider,
            detail: failure_text(*pair, error_views(errors@)),
        }),
{
    let mut s = "All providers failed to fetch price for ".to_owned();
    s.append(pair.as_str());
    s.append(": ");
    s.append("[");
    let list = join_debug(errors);
    s.append(list.as_str());
    s.append("]");
    PriceProviderError::Provider(s)
}

/// Main price service that manages multiple providers.
pub struct PriceService<P: PriceProvider> {
    providers: Vec<P>,
}

impl<P: PriceProvider> PriceService<P> {
    /// The providers, in the order in which they are asked.
    pub closed spec fn providers(&self) -> Seq<P> {
        self.providers@
    }

    /// How far a lookup went that got `attempts` from the providers at the
    /// positions `asked`: up to and including the provider that gave a
    /// price, or through all the providers where none did.
    pub open spec fn reach(
        &self,
        asked: Seq<int>,
        attempts: Seq<Result<PriceData<P::Price>, PriceProviderError>>,
    ) -> int {
        if attempts.len() > 0 && attempts.last() is Ok {
            asked.last() + 1
        } else {
            self.providers().len() as int
        }
    }

    /// Whether, in a lookup for `pair`, the providers at the positions
    /// `asked` were asked in turn and answered with `attempts`.
    ///
    /// - Each answer is what the call of `fetch_price` on that provider, for
    ///   this pair, came back with.
    /// - Only providers that quote the pair are asked, in the order in which
    ///   they were added, each once.
    /// - Every answer but the last is an error: a price ends the lookup.
    /// - No provider that quotes the pair is passed over, as far as the
    ///   lookup went.
    pub open spec fn asked_in_turn(
        &self,
        pair: CurrencyPair,
        asked: Seq<int>,
        attempts: Seq<Result<PriceData<P::Price>, PriceProviderError>>,
    ) -> bool {
        &&& asked.len() == attempts.len()
        &&& forall|j: int|
            0 <= j < asked.len() ==> {
                &&& 0 <= #[trigger] asked[j] < self.providers().len()
                &&& self.providers()[asked[j]].supports(pair)
                &&& call_ensures(
                    P::fetch_price,
                    (&self.providers()[asked[j]], &pair),
                    attempts[j],
                )
            }
        &&& forall|j: int, k: int|
            0 <= j < k < asked.len() ==> (#[trigger] asked[j]) < (#[trigger] asked[k])
        &&& forall|j: int| 0 <= j < attempts.len() - 1 ==> (#[trigger] attempts[j]) is Err
        &&& forall|p: int|
            0 <= p < self.reach(asked, attempts) && (#[trigger] self.providers()[p]).supports(pair)
                ==> asked.contains(p)
    }

    /// Whether a lookup for `pair` may end in `result`: whether `result` is
    /// what the answers settle to that the providers gave when they were
    /// asked in turn.
    pub open spec fn may_answer(
        &self,
        pair: CurrencyPair,
        result: Result<PriceData<P::Price>, PriceProviderError>,
    ) -> bool {
        exists|asked: Seq<int>, attempts: Seq<Result<PriceData<P::Price>, PriceProviderError>>|
            {
                &&& #[trigger] self.asked_in_turn(pair, asked, attempts)
                &&& settles(pair, attempts, result)
            }
    }

    /// Where no provider quotes the pair, the lookup fails with a provider
    /// error that lists no failure.
    pub proof fn lemma_no_provider_quotes(
        &self,
        pair: CurrencyPair,
        result: Result<PriceData<P::Price>, PriceProviderError>,
    )
        requires
            self.may_answer(pair, result),
            forall|p: int|
                0 <= p < self.providers().len() ==> !(#[trigger] self.providers()[p]).supports(
                    pair,
                ),
        ensures
            result matches Err(error) && error@ == (ErrorView {
                kind: ErrorKind::Provider,
                detail: failure_text(pair, Seq::empty()),
            }),
    {
        let (asked, attempts) = choose|
            asked: Seq<int>,
            attempts: Seq<Result<PriceData<P::Price>, PriceProviderError>>,
        |
            #[trigger] self.asked_in_turn(pair, asked, attempts) && settles(pair, attempts, result);
        if asked.len() > 0 {
            assert(self.providers()[asked[0]].supports(pair));
        }
        assert(failures(attempts) =~= Seq::<ErrorView>::empty());
    }

    /// A lookup that succeeds gives the price that the last provider asked
    /// answered with; one that fails has asked every provider that quotes
    /// the pair.
    pub proof fn lemma_price_comes_from_a_provider(
        &self,
        pair: CurrencyPair,
        asked: Seq<int>,
        attempts: Seq<Result<PriceData<P::Price>, PriceProviderError>>,
        result: Result<PriceData<P::Price>, PriceProviderError>,
    )
        requires
            self.asked_in_turn(pair, asked, attempts),
            settles(pair, attempts, result),
        ensures
            result is Ok ==> attempts.len() > 0 && attempts.last() == result,
            result is Err ==> forall|p: int|
                0 <= p < self.providers().len() && (#[trigger] self.providers()[p]).supports(pair)
                    ==> asked.contains(p),
    {
        if result is Ok {
            let data = result->Ok_0;
            let i = choose|i: int|
                0 <= i < attempts.len() && #[trigger] attempts[i] == Ok::<
                    PriceData<P::Price>,
                    PriceProviderError,
                >(data);
            if i < attempts.len() - 1 {
                assert(attempts[i] is Err);
            }
        } else {
            if attempts.len() > 0 {
                assert(attempts[attempts.len() - 1] is Err);
            }
        }
    }

    /// A service without providers.
    pub fn new() -> (service: Self)
        ensures
            service.providers() == Seq::<P>::empty(),
    {
        PriceService { providers: Vec::new() }
    }

    /// Adds a provider behind those already there.
    pub fn add_provider(&mut self, provider: P)
        ensures
            final(self).providers() == old(self).providers().push(provider),
    {
        self.providers.push(provider);
    }

    /// The number of providers.
    pub fn provider_count(&self) -> (n: usize)
        ensures
            n == self.providers().len(),
    {
        self.providers.len()
    }

    /// What a lookup for `pair` comes to, given the answers of the providers
    /// that were asked, in the order in which they were asked: the first
    /// price among them wins; without one, the lookup fails with a provider
    /// error that lists every failure.
    pub fn settle(
        pair: &CurrencyPair,
        attempts: Vec<Result<PriceData<P::Price>, PriceProviderError>>,
    ) -> (result: Result<PriceData<P::Price>, PriceProviderError>)
        ensures
            settles(*pair, attempts@, result),
    {
        let mut errors: Vec<PriceProviderError> = Vec::new();
        let ghost all = attempts@;
        for attempt in it: attempts
            invariant
                it.seq() == all,
                errors@.len() == it.index(),
                forall|j: int| 0 <= j < it.index() ==> (#[trigger] all[j]) is Err,
                forall|j: int| 0 <= j < it.index() ==> all[j]->Err_0 == #[trigger] errors@[j],
        {
            match attempt {
                Ok(data) => {
                    return Ok(data);
                },
                Err(error) => {
                    errors.push(error);
                },
            }
        }
        assert(error_views(errors@) =~= failures(all));
        Err(all_failed(pair, &errors))
    }

    /// Get price from the first provider that supports the currency pair
    /// and answers with one.
    ///
    /// The providers are asked in the order in which they were added. One
    /// that does not quote `pair` is not asked. The first price ends the
    /// lookup. What the providers answer is not known beforehand, so the
    /// result is stated in terms of the answers that came: it is what
    /// [`PriceService::settle`] makes of the answers of the providers that
    /// were asked in turn.
    pub fn get_price(&self, pair: &CurrencyPair) -> (result: Result<
        PriceData<P::Price>,
        PriceProviderError,
    >)
        ensures
            self.may_answer(*pair, result),
    {
        let mut attempts: Vec<Result<PriceData<P::Price>, PriceProviderError>> = Vec::new();
        let ghost mut asked: Seq<int> = Seq::empty();
        let mut i: usize = 0;
        let mut found = false;
        while i < self.providers.len() && !found
            invariant
                i <= self.providers.len(),
                asked.len() == attempts@.len(),
                found ==> attempts@.len() > 0 && attempts@.last() is Ok && asked.last() == i - 1,
                forall|j: int|
                    0 <= j < asked.len() ==> {
                        &&& 0 <= #[trigger] asked[j] < i
                        &&& self.providers@[asked[j]].supports(*pair)
                        &&& call_ensures(
                            P::fetch_price,
                            (&self.providers@[asked[j]], pair),
                            attempts@[j],
                        )
                    },
                forall|j: int, k: int|
                    0 <= j < k < asked.len() ==> (#[trigger] asked[j]) < (#[trigger] asked[k]),
                forall|j: int|
                    0 <= j < attempts@.len() - if found {
                        1int
                    } else {
                        0int
                    } ==> (#[trigger] attempts@[j]) is Err,
                forall|p: int|
                    0 <= p < i && (#[trigger] self.providers@[p]).supports(*pair)
                        ==> asked.contains(p),
            decreases self.providers.len() - i,
        {
            let provider = &self.providers[i];
            if provider.supports_currency_pair(pair) {
                let attempt = provider.fetch_price(pair);
                found = attempt.is_ok();
                proof {
                    let before = asked;
                    asked = asked.push(i as int);
                    assert forall|p: int|
                        0 <= p < i + 1 && (#[trigger] self.providers@[p]).supports(
                            *pair,
                        ) implies asked.contains(p) by {
                        if p < i {
                            let j = choose|j: int| 0 <= j < before.len() && before[j] == p;
                            assert(asked[j] == p);
                        } else {
                            assert(asked[before.len() as int] == p);
                        }
                    }
                }
                attempts.push(attempt);
            } else {
                proof {
                    assert forall|p: int|
                        0 <= p < i + 1 && (#[trigger] self.providers@[p]).supports(
                            *pair,
                        ) implies asked.contains(p) by {}
                }
            }
            i = i + 1;
        }
        let ghost answers = attempts@;
        let result = Self::settle(pair, attempts);
        proof {
            assert(self.asked_in_turn(*pair, asked, answers));
        }
        result
    }
}

/// Where every attempt failed, the error that the lookup ends in names each
/// failure: it is a provider error, and its detail holds every provider's
/// error as `{:?}` writes it.
pub proof fn lemma_failure_names_every_error<T>(
    pair: CurrencyPair,
    attempts: Seq<Result<PriceData<T>, PriceProviderError>>,
    result: Result<PriceData<T>, PriceProviderError>,
    i: int,
)
    requires
        settles(pair, attempts, result),
        forall|j: int| 0 <= j < attempts.len() ==> (#[trigger] attempts[j]) is Err,
        0 <= i < attempts.len(),
    ensures
        result is Err,
        result->Err_0@.kind == ErrorKind::Provider,
        occurs_in(attempts[i]->Err_0@.debug_text(), result->Err_0@.detail),
{
    if result is Ok {
        let k = choose|k: int|
            0 <= k < attempts.len() && #[trigger] attempts[k] == Ok::<
                PriceData<T>,
                PriceProviderError,
            >(result->Ok_0);
        assert(attempts[k] is Err);
    }
    let errors = failures(attempts);
    lemma_joined_names_every_error(errors, i);
    let head = "All providers failed to fetch price for "@ + pair.text() + ": "@ + "["@;
    lemma_occurs_in_wider(errors[i].debug_text(), joined_debug(errors), head, "]"@);
}

/// The joined list holds each of its errors.
pub proof fn lemma_joined_names_every_error(errors: Seq<ErrorView>, i: int)
    requires
        0 <= i < errors.len(),
    ensures
        occurs_in(errors[i].debug_text(), joined_debug(errors)),
    decreases errors.len(),
{
    let one = errors[i].debug_text();
    if errors.len() == 1 {
        lemma_occurs_in_middle(Seq::empty(), one, Seq::empty());
        assert(Seq::<char>::empty() + one + Seq::<char>::empty() =~= one);
    } else if i == errors.len() - 1 {
        lemma_occurs_in_middle(joined_debug(errors.drop_last()) + ", "@, one, Seq::empty());
        assert(joined_debug(errors.drop_last()) + ", "@ + one + Seq::<char>::empty()
            =~= joined_debug(errors));
    } else {
        let rest = errors.drop_last();
        assert(rest[i] == errors[i]);
        lemma_joined_names_every_error(rest, i);
        lemma_occurs_in_wider(
            one,
            joined_debug(rest),
            Seq::empty(),
            ", "@ + errors.last().debug_text(),
        );
        assert(Seq::<char>::empty() + joined_debug(rest) + (", "@ + errors.last().debug_text())
            =~= joined_debug(errors));
    }
}

} // verus!
