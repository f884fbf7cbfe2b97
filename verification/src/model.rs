//! The registry as mathematics: what it holds, and what each operation makes
//! of it.

use vstd::prelude::*;
use crate::events::{alert_triggered_text, price_update_text, EventView};
use crate::price::Price;
use crate::ticker::TickerView;

verus! {

/// The sound that a registry selects until the user picks another.
pub open spec fn default_sound() -> Seq<char> {
    "beep.mp3"@
}

/// What a registry holds: the tickers in the order in which they were
/// created, the symbols with a live subscription, the selected sound and the
/// display order.
pub struct RegistryView {
    pub tickers: Seq<TickerView>,
    pub subscriptions: Set<Seq<char>>,
    pub selected_sound: Seq<char>,
    pub ticker_order: Seq<Seq<char>>,
}

impl RegistryView {
    /// Every ticker is well formed, no two tickers share a symbol, and the
    /// subscriptions are finitely many.
    pub open spec fn wf(self) -> bool {
        &&& forall|i: int| 0 <= i < self.tickers.len() ==> (#[trigger] self.tickers[i]).wf()
        &&& forall|i: int, j: int|
            0 <= i < j < self.tickers.len() ==> (#[trigger] self.tickers[i]).symbol != (
            #[trigger] self.tickers[j]).symbol
        &&& self.subscriptions.finite()
    }

    /// The registry at startup.
    pub open spec fn initial() -> RegistryView {
        RegistryView {
            tickers: Seq::empty(),
            subscriptions: Set::empty(),
            selected_sound: default_sound(),
            ticker_order: Seq::empty(),
        }
    }

    /// Whether the registry holds a ticker for `symbol`.
    pub open spec fn has_ticker(self, symbol: Seq<char>) -> bool {
        exists|i: int| 0 <= i < self.tickers.len() && (#[trigger] self.tickers[i]).symbol == symbol
    }

    /// Where the ticker of `symbol` stands among the tickers.
    pub open spec fn position(self, symbol: Seq<char>) -> int {
        choose|i: int| 0 <= i < self.tickers.len() && (#[trigger] self.tickers[i]).symbol == symbol
    }

    /// The ticker of `symbol`, where the registry has one.
    pub open spec fn ticker(self, symbol: Seq<char>) -> TickerView {
        self.tickers[self.position(symbol)]
    }

    /// The alerts of `symbol`; none for a symbol without ticker.
    pub open spec fn alerts_of(self, symbol: Seq<char>) -> Seq<Price> {
        if self.has_ticker(symbol) {
            self.ticker(symbol).alerts
        } else {
            Seq::empty()
        }
    }

    /// Whether `symbol` has a live subscription.
    pub open spec fn is_subscribed(self, symbol: Seq<char>) -> bool {
        self.subscriptions.contains(symbol)
    }

    /// The registry with a ticker for `symbol`: as it is where it has one,
    /// else with a new ticker behind the others, without alerts and with
    /// `last_price`.
    pub open spec fn with_ticker(self, symbol: Seq<char>, last_price: Price) -> RegistryView {
        if self.has_ticker(symbol) {
            self
        } else {
            RegistryView {
                tickers: self.tickers.push(TickerView::fresh(symbol).with_last_price(last_price)),
                ..self
            }
        }
    }

    /// The registry with `ticker` in the place of the ticker of the same
    /// symbol.
    pub open spec fn put(self, ticker: TickerView) -> RegistryView {
        RegistryView {
            tickers: self.tickers.update(self.position(ticker.symbol), ticker),
            ..self
        }
    }

    /// After a subscription for `symbol` went live.
    pub open spec fn after_start(self, symbol: Seq<char>) -> RegistryView {
        RegistryView { subscriptions: self.subscriptions.insert(symbol), ..self }
    }

    /// After the subscription of `symbol` was cancelled.
    pub open spec fn after_stop(self, symbol: Seq<char>) -> RegistryView {
        RegistryView { subscriptions: self.subscriptions.remove(symbol), ..self }
    }

    /// After `symbol` was removed: its subscription is cancelled and its
    /// ticker is gone.
    pub open spec fn after_remove(self, symbol: Seq<char>) -> RegistryView {
        if self.has_ticker(symbol) {
            RegistryView {
                tickers: self.tickers.remove(self.position(symbol)),
                subscriptions: self.subscriptions.remove(symbol),
                ..self
            }
        } else {
            self.after_stop(symbol)
        }
    }

    /// After an alert at `price` was added for `symbol`, which had none there.
    pub open spec fn after_add_alert(self, symbol: Seq<char>, price: Price) -> RegistryView {
        let ready = self.with_ticker(symbol, Price::spec_zero());
        ready.put(ready.ticker(symbol).with_alert(price))
    }

    /// After alerts at `prices` were added for `symbol`, one after the other.
    pub open spec fn after_add_alerts(self, symbol: Seq<char>, prices: Seq<Price>) -> RegistryView
        decreases prices.len(),
    {
        if prices.len() == 0 {
            self
        } else {
            self.after_add_alerts(symbol, prices.drop_last()).after_add_alert(
                symbol,
                prices.last(),
            )
        }
    }

    /// After the alert at `price` was removed from the ticker of `symbol`.
    pub open spec fn after_remove_alert(self, symbol: Seq<char>, price: Price) -> RegistryView {
        self.put(self.ticker(symbol).without_alert(price))
    }

    /// After the alerts of `symbol` were replaced by `list`.
    pub open spec fn after_set_alerts(self, symbol: Seq<char>, list: Seq<Price>) -> RegistryView {
        let ready = self.with_ticker(symbol, Price::spec_zero());
        ready.put(ready.ticker(symbol).with_alerts(list))
    }

    /// After the last price of the ticker of `symbol` was overridden.
    pub open spec fn after_set_last_price(self, symbol: Seq<char>, price: Price) -> RegistryView {
        self.put(self.ticker(symbol).with_last_price(price))
    }

    /// The thresholds that a tick of `symbol` to `now` fires: none unless the
    /// symbol is subscribed and has a ticker.
    pub open spec fn fired(self, symbol: Seq<char>, now: Price) -> Seq<Price> {
        if self.is_subscribed(symbol) && self.has_ticker(symbol) {
            self.ticker(symbol).fired(now)
        } else {
            Seq::empty()
        }
    }

    /// After a tick of `symbol` to `now`. A tick for a symbol without live
    /// subscription changes nothing. Any other tick reaches the ticker of the
    /// symbol, which is created if need be: the fired alerts are removed and
    /// `now` becomes the last price.
    pub open spec fn after_tick(self, symbol: Seq<char>, now: Price) -> RegistryView {
        if self.is_subscribed(symbol) {
            let ready = self.with_ticker(symbol, now);
            ready.put(ready.ticker(symbol).after_tick(now))
        } else {
            self
        }
    }

    /// The events that a tick of `symbol` to `now` publishes, in their order:
    /// none for a symbol without live subscription; else the price update,
    /// and behind it the fired thresholds if there are any.
    pub open spec fn tick_events(self, symbol: Seq<char>, now: Price) -> Seq<EventView> {
        if !self.is_subscribed(symbol) {
            Seq::empty()
        } else if self.fired(symbol, now).len() == 0 {
            seq![EventView::PriceUpdate { name: price_update_text(symbol), price: now }]
        } else {
            seq![
                EventView::PriceUpdate { name: price_update_text(symbol), price: now },
                EventView::AlertTriggered {
                    name: alert_triggered_text(symbol),
                    thresholds: self.fired(symbol, now),
                },
            ]
        }
    }

    /// In a well-formed registry a ticker is found by its symbol.
    pub proof fn lemma_position(self, symbol: Seq<char>, i: int)
        requires
            self.wf(),
            0 <= i < self.tickers.len(),
            self.tickers[i].symbol == symbol,
        ensures
            self.has_ticker(symbol),
            self.position(symbol) == i,
            self.ticker(symbol) == self.tickers[i],
    {
    }

    /// A registry with a ticker for `symbol` is well formed and finds it
    /// there.
    pub proof fn lemma_with_ticker(self, symbol: Seq<char>, last_price: Price)
        requires
            self.wf(),
        ensures
            self.with_ticker(symbol, last_price).wf(),
            self.with_ticker(symbol, last_price).has_ticker(symbol),
            self.has_ticker(symbol) ==> self.with_ticker(symbol, last_price) == self,
            !self.has_ticker(symbol) ==> self.with_ticker(symbol, last_price).position(symbol)
                == self.tickers.len() && self.with_ticker(symbol, last_price).ticker(symbol)
                == TickerView::fresh(symbol).with_last_price(last_price),
    {
        if !self.has_ticker(symbol) {
            self.with_ticker(symbol, last_price).lemma_position(symbol, self.tickers.len() as int);
        }
    }

    /// Putting a well-formed ticker in the place of the ticker of its symbol
    /// keeps the registry well formed and every other ticker as it was.
    pub proof fn lemma_put(self, ticker: TickerView)
        requires
            self.wf(),
            self.has_ticker(ticker.symbol),
            ticker.wf(),
        ensures
            self.put(ticker).wf(),
            self.put(ticker).has_ticker(ticker.symbol),
            self.put(ticker).position(ticker.symbol) == self.position(ticker.symbol),
            self.put(ticker).ticker(ticker.symbol) == ticker,
            forall|other: Seq<char>|
                other != ticker.symbol ==> self.put(ticker).has_ticker(other) == self.has_ticker(
                    other,
                ) && (self.has_ticker(other) ==> self.put(ticker).ticker(other) == self.ticker(
                    other,
                )),
    {
        let next = self.put(ticker);
        next.lemma_position(ticker.symbol, self.position(ticker.symbol));
        assert forall|other: Seq<char>| other != ticker.symbol implies next.has_ticker(other)
            == self.has_ticker(other) && (self.has_ticker(other) ==> next.ticker(other)
            == self.ticker(other)) by {
            if self.has_ticker(other) {
                next.lemma_position(other, self.position(other));
            }
            if next.has_ticker(other) {
                self.lemma_position(other, next.position(other));
            }
        }
    }

    /// Removing `symbol` keeps the registry well formed and leaves no ticker
    /// for the symbol.
    pub proof fn lemma_after_remove(self, symbol: Seq<char>)
        requires
            self.wf(),
        ensures
            self.after_remove(symbol).wf(),
            !self.after_remove(symbol).has_ticker(symbol),
            !self.after_remove(symbol).is_subscribed(symbol),
    {
        if self.has_ticker(symbol) {
            let p = self.position(symbol);
            let gone = self.after_remove(symbol);
            assert forall|k: int| 0 <= k < gone.tickers.len() implies (
            #[trigger] gone.tickers[k]).symbol != symbol && gone.tickers[k].wf() by {
                assert(gone.tickers[k] == self.tickers[if k < p { k } else { k + 1 }]);
            }
            assert forall|a: int, b: int| 0 <= a < b < gone.tickers.len() implies (
            #[trigger] gone.tickers[a]).symbol != (#[trigger] gone.tickers[b]).symbol by {
                assert(gone.tickers[a] == self.tickers[if a < p { a } else { a + 1 }]);
                assert(gone.tickers[b] == self.tickers[if b < p { b } else { b + 1 }]);
            }
        }
    }

    /// Setting the alerts of `symbol` keeps the registry well formed and
    /// leaves a ticker for the symbol.
    pub proof fn lemma_after_set_alerts(self, symbol: Seq<char>, list: Seq<Price>)
        requires
            self.wf(),
        ensures
            self.after_set_alerts(symbol, list).wf(),
            self.after_set_alerts(symbol, list).has_ticker(symbol),
            self.after_set_alerts(symbol, list).ticker(symbol) == self.with_ticker(
                symbol,
                Price::spec_zero(),
            ).ticker(symbol).with_alerts(list),
    {
        let ready = self.with_ticker(symbol, Price::spec_zero());
        self.lemma_with_ticker(symbol, Price::spec_zero());
        crate::alerts::lemma_first_occurrences(list);
        ready.lemma_put(ready.ticker(symbol).with_alerts(list));
    }
}

} // verus!
