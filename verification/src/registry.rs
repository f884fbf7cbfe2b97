//! The registry: every ticker, every live subscription, the selected sound
//! and the display order, with the operations that the user and the feed
//! perform on them.

use vstd::prelude::*;
use vstd::string::StringExecFns;
use crate::alerts::{
    fired_by, first_occurrences, holds, lemma_filter_origin, other_than,
};
use crate::error::Error;
use crate::events::{alert_triggered_name, event_views, price_update_name, Event};
use crate::model::RegistryView;
use crate::price::Price;
use crate::symbol::{lemma_push_name, lemma_remove_name, names, Symbol};
use crate::ticker::{ticker_views, TickerState};

verus! {

/// The shared state of the engine. One value of it exists per process; the
/// caller guards it with a lock and performs each operation below inside one
/// critical section.
#[derive(Debug)]
pub struct Registry {
    tickers: Vec<TickerState>,
    subscriptions: Vec<Symbol>,
    selected_sound: String,
    ticker_order: Vec<Symbol>,
}

impl View for Registry {
    type V = RegistryView;

    closed spec fn view(&self) -> RegistryView {
        RegistryView {
            tickers: ticker_views(self.tickers@),
            subscriptions: names(self.subscriptions@).to_set(),
            selected_sound: self.selected_sound@,
            ticker_order: names(self.ticker_order@),
        }
    }
}

impl Registry {
    /// The invariant of the type: the view is well formed, and no
    /// subscription is recorded twice.
    pub closed spec fn wf(&self) -> bool {
        self@.wf() && names(self.subscriptions@).no_duplicates()
    }

    /// The view of a well-formed registry is well formed.
    pub proof fn lemma_wf(&self)
        requires
            self.wf(),
        ensures
            self@.wf(),
    {
    }

    /// The registry at startup: no ticker, no subscription, the default
    /// sound, an empty display order.
    pub fn new() -> (registry: Registry)
        ensures
            registry.wf(),
            registry@ == RegistryView::initial(),
    {
        let registry = Registry {
            tickers: Vec::new(),
            subscriptions: Vec::new(),
            selected_sound: String::from_str("beep.mp3"),
            ticker_order: Vec::new(),
        };
        proof {
            assert(ticker_views(registry.tickers@) =~= Seq::empty());
            assert(names(registry.subscriptions@).to_set() =~= Set::empty());
            assert(names(registry.ticker_order@) =~= Seq::empty());
        }
        registry
    }

    /// Where the ticker of `symbol` stands, if there is one.
    fn find(&self, symbol: &Symbol) -> (found: Option<usize>)
        requires
            self.wf(),
        ensures
            match found {
                Some(i) => i < self.tickers.len() && self@.has_ticker(symbol@)
                    && self@.position(symbol@) == i,
                None => !self@.has_ticker(symbol@),
            },
    {
        let mut i: usize = 0;
        while i < self.tickers.len()
            invariant
                self.wf(),
                i <= self.tickers.len(),
                forall|k: int| 0 <= k < i ==> (#[trigger] self@.tickers[k]).symbol != symbol@,
            decreases self.tickers.len() - i,
        {
            if self.tickers[i].symbol().equals(symbol) {
                proof {
                    self@.lemma_position(symbol@, i as int);
                }
                return Some(i);
            }
            i += 1;
        }
        None
    }

    /// Where the subscription of `symbol` is recorded, if it is.
    fn find_subscription(&self, symbol: &Symbol) -> (found: Option<usize>)
        ensures
            match found {
                Some(i) => i < self.subscriptions.len() && self.subscriptions@[i as int]@
                    == symbol@ && self@.is_subscribed(symbol@),
                None => !self@.is_subscribed(symbol@),
            },
    {
        let mut i: usize = 0;
        while i < self.subscriptions.len()
            invariant
                i <= self.subscriptions.len(),
                forall|k: int| 0 <= k < i ==> (#[trigger] names(self.subscriptions@)[k]) != symbol@,
            decreases self.subscriptions.len() - i,
        {
            if self.subscriptions[i].equals(symbol) {
                proof {
                    assert(names(self.subscriptions@)[i as int] == symbol@);
                }
                return Some(i);
            }
            i += 1;
        }
        None
    }

    /// Makes sure that `symbol` has a ticker, and says where it stands.
    fn ensure(&mut self, symbol: &Symbol, last_price: Price) -> (i: usize)
        requires
            old(self).wf(),
        ensures
            final(self).wf(),
            final(self)@ == old(self)@.with_ticker(symbol@, last_price),
            i < final(self).tickers.len(),
            final(self)@.has_ticker(symbol@),
            final(self)@.position(symbol@) == i,
    {
        match self.find(symbol) {
            Some(i) => i,
            None => {
                let mut ticker = TickerState::new(symbol.clone());
                ticker.set_last_price(last_price);
                let i = self.tickers.len();
                self.tickers.push(ticker);
                proof {
                    old(self)@.lemma_with_ticker(symbol@, last_price);
                    assert(self@.tickers =~= old(self)@.with_ticker(symbol@, last_price).tickers);
                }
                i
            },
        }
    }

    /// Whether `symbol` has a live subscription.
    pub fn is_subscribed(&self, symbol: &Symbol) -> (live: bool)
        ensures
            live == self@.is_subscribed(symbol@),
    {
        self.find_subscription(symbol).is_some()
    }

    /// Whether the registry holds a ticker for `symbol`.
    pub fn has_ticker(&self, symbol: &Symbol) -> (found: bool)
        requires
            self.wf(),
        ensures
            found == self@.has_ticker(symbol@),
    {
        self.find(symbol).is_some()
    }

    /// Records a live subscription for `symbol`. It is refused where one is
    /// live already; the caller then opens no second connection.
    pub fn start(&mut self, symbol: &Symbol) -> (outcome: Result<(), Error>)
        requires
            old(self).wf(),
        ensures
            final(self).wf(),
            old(self)@.is_subscribed(symbol@) ==> outcome == Err::<(), Error>(
                Error::AlreadySubscribed,
            ) && final(self)@ == old(self)@,
            !old(self)@.is_subscribed(symbol@) ==> outcome == Ok::<(), Error>(()) && final(self)@
                == old(self)@.after_start(symbol@),
    {
        if self.is_subscribed(symbol) {
            Err(Error::AlreadySubscribed)
        } else {
            self.subscriptions.push(symbol.clone());
            proof {
                let before = names(old(self).subscriptions@);
                lemma_push_name(before, symbol@);
                assert(names(self.subscriptions@) =~= before.push(symbol@));
                assert(self@.tickers == old(self)@.tickers);
            }
            Ok(())
        }
    }

    /// Forgets the subscription of `symbol`, and says whether one was live:
    /// the caller then signals the cancellation. Nothing else changes, and a
    /// symbol without subscription is no error.
    pub fn stop(&mut self, symbol: &Symbol) -> (cancelled: bool)
        requires
            old(self).wf(),
        ensures
            final(self).wf(),
            cancelled == old(self)@.is_subscribed(symbol@),
            final(self)@ == old(self)@.after_stop(symbol@),
            !final(self)@.is_subscribed(symbol@),
    {
        match self.find_subscription(symbol) {
            Some(i) => {
                let _ = self.subscriptions.remove(i);
                proof {
                    let before = names(old(self).subscriptions@);
                    lemma_remove_name(before, i as int);
                    assert(names(self.subscriptions@) =~= before.remove(i as int));
                    assert(self@.tickers == old(self)@.tickers);
                }
                true
            },
            None => {
                proof {
                    assert(self@.subscriptions =~= old(self)@.subscriptions.remove(symbol@));
                }
                false
            },
        }
    }

    /// Removes `symbol` altogether: first the subscription, then the ticker.
    /// Says whether a subscription was live, as [`Registry::stop`] does. The
    /// caller signals the cancellation and saves the settings.
    pub fn remove(&mut self, symbol: &Symbol) -> (cancelled: bool)
        requires
            old(self).wf(),
        ensures
            final(self).wf(),
            cancelled == old(self)@.is_subscribed(symbol@),
            final(self)@ == old(self)@.after_remove(symbol@),
            !final(self)@.is_subscribed(symbol@),
            !final(self)@.has_ticker(symbol@),
    {
        let cancelled = self.stop(symbol);
        match self.find(symbol) {
            Some(i) => {
                let _ = self.tickers.remove(i);
                proof {
                    old(self)@.lemma_after_remove(symbol@);
                    assert(self@.tickers =~= old(self)@.after_remove(symbol@).tickers);
                }
            },
            None => {},
        }
        cancelled
    }

    /// Adds an alert at `price` for `symbol`, whose ticker is created if need
    /// be. An alert that the symbol already has is refused, and nothing
    /// changes.
    pub fn add_alert(&mut self, symbol: &Symbol, price: Price) -> (outcome: Result<(), Error>)
        requires
            old(self).wf(),
        ensures
            final(self).wf(),
            holds(old(self)@.alerts_of(symbol@), price) ==> outcome == Err::<(), Error>(
                Error::DuplicateAlert,
            ) && final(self)@ == old(self)@,
            !holds(old(self)@.alerts_of(symbol@), price) ==> outcome == Ok::<(), Error>(())
                && final(self)@ == old(self)@.after_add_alert(symbol@, price),
            !holds(old(self)@.alerts_of(symbol@), price) ==> final(self)@.alerts_of(symbol@)
                == old(self)@.alerts_of(symbol@).push(price),
    {
        let i = self.ensure(symbol, Price::zero());
        let ghost ready = self@;
        let outcome = self.tickers[i].add_alert(price);
        proof {
            old(self)@.lemma_with_ticker(symbol@, Price::spec_zero());
            if outcome.is_ok() {
                let next = ready.ticker(symbol@).with_alert(price);
                ready.lemma_put(next);
                assert(self@.tickers =~= ready.put(next).tickers);
            } else {
                assert(self@.tickers =~= ready.tickers);
            }
        }
        outcome
    }

    /// Removes the alert at `price` from the ticker of `symbol`. Fails where
    /// the symbol has no ticker; a ticker without such an alert stays as it
    /// is.
    pub fn remove_alert(&mut self, symbol: &Symbol, price: Price) -> (outcome: Result<(), Error>)
        requires
            old(self).wf(),
        ensures
            final(self).wf(),
            !old(self)@.has_ticker(symbol@) ==> outcome == Err::<(), Error>(Error::TickerNotFound)
                && final(self)@ == old(self)@,
            old(self)@.has_ticker(symbol@) ==> outcome == Ok::<(), Error>(()) && final(self)@
                == old(self)@.after_remove_alert(symbol@, price) && final(self)@.alerts_of(symbol@)
                == old(self)@.alerts_of(symbol@).filter(other_than(price)),
            !holds(final(self)@.alerts_of(symbol@), price),
    {
        match self.find(symbol) {
            Some(i) => {
                self.tickers[i].remove_alert(price);
                proof {
                    let next = old(self)@.ticker(symbol@).without_alert(price);
                    old(self)@.lemma_put(next);
                    assert(self@.tickers =~= old(self)@.put(next).tickers);
                }
                Ok(())
            },
            None => Err(Error::TickerNotFound),
        }
    }

    /// Replaces the alerts of `symbol`, whose ticker is created if need be,
    /// by those of `list`.
    pub fn set_alerts(&mut self, symbol: &Symbol, list: Vec<Price>)
        requires
            old(self).wf(),
        ensures
            final(self).wf(),
            final(self)@ == old(self)@.after_set_alerts(symbol@, list@),
            final(self)@.alerts_of(symbol@) == first_occurrences(list@),
    {
        let i = self.ensure(symbol, Price::zero());
        let ghost ready = self@;
        self.tickers[i].set_alerts(list);
        proof {
            let next = ready.ticker(symbol@).with_alerts(list@);
            ready.lemma_put(next);
            assert(self@.tickers =~= ready.put(next).tickers);
        }
    }

    /// The alerts of `symbol`, in the order in which they were added; none
    /// for a symbol without ticker.
    pub fn get_alerts(&self, symbol: &Symbol) -> (alerts: Vec<Price>)
        requires
            self.wf(),
        ensures
            alerts@ == self@.alerts_of(symbol@),
    {
        match self.find(symbol) {
            Some(i) => self.tickers[i].alerts().clone(),
            None => Vec::new(),
        }
    }

    /// The last price of `symbol`, if it has a ticker.
    pub fn last_price(&self, symbol: &Symbol) -> (price: Option<Price>)
        requires
            self.wf(),
        ensures
            price == if self@.has_ticker(symbol@) {
                Some(self@.ticker(symbol@).last_price)
            } else {
                None::<Price>
            },
    {
        match self.find(symbol) {
            Some(i) => Some(self.tickers[i].last_price()),
            None => None,
        }
    }

    /// Overrides the last price of `symbol`. Fails where the symbol has no
    /// ticker.
    pub fn set_last_price(&mut self, symbol: &Symbol, price: Price) -> (outcome: Result<
        (),
        Error,
    >)
        requires
            old(self).wf(),
        ensures
            final(self).wf(),
            !old(self)@.has_ticker(symbol@) ==> outcome == Err::<(), Error>(Error::TickerNotFound)
                && final(self)@ == old(self)@,
            old(self)@.has_ticker(symbol@) ==> outcome == Ok::<(), Error>(()) && final(self)@
                == old(self)@.after_set_last_price(symbol@, price) && final(self)@.ticker(
                symbol@,
            ).last_price == price && final(self)@.alerts_of(symbol@) == old(self)@.alerts_of(
                symbol@,
            ),
    {
        match self.find(symbol) {
            Some(i) => {
                self.tickers[i].set_last_price(price);
                proof {
                    let next = old(self)@.ticker(symbol@).with_last_price(price);
                    old(self)@.lemma_put(next);
                    assert(self@.tickers =~= old(self)@.put(next).tickers);
                }
                Ok(())
            },
            None => Err(Error::TickerNotFound),
        }
    }

    /// The name of the selected sound.
    pub fn selected_sound(&self) -> (sound: &str)
        ensures
            sound@ == self@.selected_sound,
    {
        self.selected_sound.as_str()
    }

    /// Selects another sound.
    pub fn set_selected_sound(&mut self, sound: String)
        requires
            old(self).wf(),
        ensures
            final(self).wf(),
            final(self)@ == (RegistryView { selected_sound: sound@, ..old(self)@ }),
    {
        self.selected_sound = sound;
    }

    /// The display order.
    pub fn ticker_order(&self) -> (order: &Vec<Symbol>)
        ensures
            names(order@) == self@.ticker_order,
    {
        &self.ticker_order
    }

    /// Replaces the display order.
    pub fn update_ticker_order(&mut self, order: Vec<Symbol>)
        requires
            old(self).wf(),
        ensures
            final(self).wf(),
            final(self)@ == (RegistryView { ticker_order: names(order@), ..old(self)@ }),
    {
        self.ticker_order = order;
    }

    /// Takes a tick of `symbol` to the price `now`, and returns the events to
    /// publish, in their order.
    ///
    /// A tick for a symbol without live subscription is dropped: nothing is
    /// published and nothing changes, so that a tick still in flight cannot
    /// bring back a ticker that was removed. Any other tick publishes the
    /// price, fires the alerts that it crosses, removes them from the ticker
    /// (which is created if need be) and becomes its last price.
    pub fn process_tick(&mut self, symbol: &Symbol, now: Price) -> (events: Vec<Event>)
        requires
            old(self).wf(),
        ensures
            final(self).wf(),
            final(self)@ == old(self)@.after_tick(symbol@, now),
            event_views(events@) == old(self)@.tick_events(symbol@, now),
            old(self)@.is_subscribed(symbol@) ==> final(self)@.has_ticker(symbol@) && final(
                self
            )@.ticker(symbol@).last_price == now,
            forall|k: int|
                0 <= k < old(self)@.fired(symbol@, now).len() ==> !holds(
                    final(self)@.alerts_of(symbol@),
                    #[trigger] old(self)@.fired(symbol@, now)[k],
                ),
    {
        let mut events: Vec<Event> = Vec::new();
        if !self.is_subscribed(symbol) {
            return events;
        }
        let i = self.ensure(symbol, now);
        let ghost ready = self@;
        let fired = self.tickers[i].apply_tick(now);
        proof {
            old(self)@.lemma_with_ticker(symbol@, now);
            let next = ready.ticker(symbol@).after_tick(now);
            ready.lemma_put(next);
            assert(self@.tickers =~= ready.put(next).tickers);
            if !old(self)@.has_ticker(symbol@) {
                lemma_filter_origin(ready.ticker(symbol@).alerts, fired_by(now, now));
            }
        }
        events.push(Event::PriceUpdate { name: price_update_name(symbol), price: now });
        if fired.len() > 0 {
            events.push(
                Event::AlertTriggered { name: alert_triggered_name(symbol), thresholds: fired },
            );
        }
        events
    }

    /// The symbols with a live subscription, each once.
    pub fn subscriptions(&self) -> (symbols: &Vec<Symbol>)
        requires
            self.wf(),
        ensures
            names(symbols@).to_set() == self@.subscriptions,
            names(symbols@).no_duplicates(),
    {
        &self.subscriptions
    }

    /// The tickers, in the order in which they were created.
    pub fn tickers(&self) -> (tickers: &Vec<TickerState>)
        ensures
            ticker_views(tickers@) == self@.tickers,
    {
        &self.tickers
    }
}

} // verus!
