//! The state that the registry keeps for one instrument.

use vstd::prelude::*;
use crate::alerts::{
    crosses, distinct, fired_by, first_occurrences, holds, lemma_filter_distinct,
    lemma_filter_holds, lemma_filter_next, lemma_filter_origin, other_than, spared_by,
};
use crate::error::Error;
use crate::price::Price;
use crate::symbol::Symbol;

verus! {

/// What a ticker is, as mathematics: its symbol, its alert thresholds in the
/// order in which they were added, and the last price seen.
pub struct TickerView {
    pub symbol: Seq<char>,
    pub alerts: Seq<Price>,
    pub last_price: Price,
}

impl TickerView {
    /// No two alerts of the ticker share a threshold.
    pub open spec fn wf(self) -> bool {
        distinct(self.alerts)
    }

    /// A ticker without alerts, whose last price is zero: no tick was seen.
    pub open spec fn fresh(symbol: Seq<char>) -> TickerView {
        TickerView { symbol, alerts: Seq::empty(), last_price: Price::spec_zero() }
    }

    /// Whether the ticker has an alert at `price`.
    pub open spec fn has_alert(self, price: Price) -> bool {
        holds(self.alerts, price)
    }

    /// The ticker with one more alert, behind the others.
    pub open spec fn with_alert(self, price: Price) -> TickerView {
        TickerView { alerts: self.alerts.push(price), ..self }
    }

    /// The ticker without its alert at `price`.
    pub open spec fn without_alert(self, price: Price) -> TickerView {
        TickerView { alerts: self.alerts.filter(other_than(price)), ..self }
    }

    /// The ticker with its alerts replaced by `list`; of thresholds that
    /// occur twice in `list` the first stays.
    pub open spec fn with_alerts(self, list: Seq<Price>) -> TickerView {
        TickerView { alerts: first_occurrences(list), ..self }
    }

    /// The ticker with another last price.
    pub open spec fn with_last_price(self, price: Price) -> TickerView {
        TickerView { last_price: price, ..self }
    }

    /// The thresholds that a tick to `now` fires, in the order of the alerts.
    pub open spec fn fired(self, now: Price) -> Seq<Price> {
        self.alerts.filter(fired_by(self.last_price, now))
    }

    /// The ticker after a tick to `now`: the fired alerts are gone, and `now`
    /// is the last price.
    pub open spec fn after_tick(self, now: Price) -> TickerView {
        TickerView {
            alerts: self.alerts.filter(spared_by(self.last_price, now)),
            last_price: now,
            ..self
        }
    }
}

/// The symbol, the alerts and the last price of one instrument.
#[derive(Debug)]
pub struct TickerState {
    symbol: Symbol,
    alerts: Vec<Price>,
    last_price: Price,
}

impl View for TickerState {
    type V = TickerView;

    closed spec fn view(&self) -> TickerView {
        TickerView { symbol: self.symbol@, alerts: self.alerts@, last_price: self.last_price }
    }
}

impl TickerState {
    /// The invariant of the type: see [`TickerView::wf`].
    pub open spec fn wf(&self) -> bool {
        self@.wf()
    }

    /// A ticker for `symbol` without alerts, before its first tick.
    pub fn new(symbol: Symbol) -> (ticker: TickerState)
        ensures
            ticker.wf(),
            ticker@ == TickerView::fresh(symbol@),
    {
        TickerState { symbol, alerts: Vec::new(), last_price: Price::zero() }
    }

    /// A ticker as a settings document records it.
    pub fn from_parts(symbol: Symbol, alerts: Vec<Price>, last_price: Price) -> (ticker:
        TickerState)
        ensures
            ticker.wf(),
            ticker@ == TickerView::fresh(symbol@).with_alerts(alerts@).with_last_price(last_price),
    {
        let mut ticker = TickerState::new(symbol);
        ticker.set_alerts(alerts);
        ticker.set_last_price(last_price);
        ticker
    }

    /// The symbol of the ticker.
    pub fn symbol(&self) -> (symbol: &Symbol)
        ensures
            symbol@ == self@.symbol,
    {
        &self.symbol
    }

    /// The alert thresholds, in the order in which they were added.
    pub fn alerts(&self) -> (alerts: &Vec<Price>)
        ensures
            alerts@ == self@.alerts,
    {
        &self.alerts
    }

    /// The last price seen, or zero before the first tick.
    pub fn last_price(&self) -> (price: Price)
        ensures
            price == self@.last_price,
    {
        self.last_price
    }

    /// Whether the ticker has an alert at `price`.
    pub fn has_alert(&self, price: Price) -> (found: bool)
        ensures
            found == self@.has_alert(price),
    {
        let mut i: usize = 0;
        while i < self.alerts.len()
            invariant
                i <= self.alerts.len(),
                forall|k: int| 0 <= k < i ==> !(#[trigger] self.alerts@[k]).spec_same(price),
            decreases self.alerts.len() - i,
        {
            if self.alerts[i].same(price) {
                return true;
            }
            i += 1;
        }
        false
    }

    /// Adds an alert at `price`, unless the ticker has one there already.
    pub fn add_alert(&mut self, price: Price) -> (outcome: Result<(), Error>)
        requires
            old(self).wf(),
        ensures
            final(self).wf(),
            old(self)@.has_alert(price) ==> outcome == Err::<(), Error>(Error::DuplicateAlert)
                && final(self)@ == old(self)@,
            !old(self)@.has_alert(price) ==> outcome == Ok::<(), Error>(()) && final(self)@
                == old(self)@.with_alert(price),
    {
        if self.has_alert(price) {
            Err(Error::DuplicateAlert)
        } else {
            self.alerts.push(price);
            Ok(())
        }
    }

    /// Removes the alert at `price`, if there is one.
    pub fn remove_alert(&mut self, price: Price)
        requires
            old(self).wf(),
        ensures
            final(self).wf(),
            final(self)@ == old(self)@.without_alert(price),
            !final(self)@.has_alert(price),
    {
        let mut kept: Vec<Price> = Vec::new();
        let mut i: usize = 0;
        while i < self.alerts.len()
            invariant
                i <= self.alerts.len(),
                kept@ == self.alerts@.subrange(0, i as int).filter(other_than(price)),
            decreases self.alerts.len() - i,
        {
            let threshold = self.alerts[i];
            proof {
                lemma_filter_next(self.alerts@, i as int, other_than(price));
            }
            if !threshold.same(price) {
                kept.push(threshold);
            }
            i += 1;
        }
        proof {
            assert(self.alerts@.subrange(0, i as int) =~= self.alerts@);
            lemma_filter_distinct(self.alerts@, other_than(price));
            lemma_filter_holds(self.alerts@, other_than(price), price);
        }
        self.alerts = kept;
    }

    /// Replaces the alerts by those of `list`. A threshold that `list` names
    /// twice is taken once, at its first place.
    pub fn set_alerts(&mut self, list: Vec<Price>)
        ensures
            final(self).wf(),
            final(self)@ == old(self)@.with_alerts(list@),
    {
        let mut fresh = TickerState {
            symbol: self.symbol.clone(),
            alerts: Vec::new(),
            last_price: self.last_price,
        };
        let mut i: usize = 0;
        while i < list.len()
            invariant
                i <= list.len(),
                fresh.wf(),
                fresh@.alerts == first_occurrences(list@.subrange(0, i as int)),
            decreases list.len() - i,
        {
            proof {
                assert(list@.subrange(0, i + 1).drop_last() =~= list@.subrange(0, i as int));
            }
            let _ = fresh.add_alert(list[i]);
            i += 1;
        }
        proof {
            assert(list@.subrange(0, i as int) =~= list@);
        }
        self.alerts = fresh.alerts;
    }

    /// Overrides the last price.
    pub fn set_last_price(&mut self, price: Price)
        ensures
            final(self)@ == old(self)@.with_last_price(price),
    {
        self.last_price = price;
    }

    /// Takes a tick: returns the thresholds that it fires, removes their
    /// alerts and records `now` as the last price. A fired alert is gone for
    /// good: the ticker no longer has an alert at any returned threshold.
    pub fn apply_tick(&mut self, now: Price) -> (fired: Vec<Price>)
        requires
            old(self).wf(),
        ensures
            final(self).wf(),
            fired@ == old(self)@.fired(now),
            final(self)@ == old(self)@.after_tick(now),
            forall|k: int| 0 <= k < fired@.len() ==> !final(self)@.has_alert(#[trigger] fired@[k]),
    {
        let last = self.last_price;
        let mut fired: Vec<Price> = Vec::new();
        let mut spared: Vec<Price> = Vec::new();
        let mut i: usize = 0;
        while i < self.alerts.len()
            invariant
                i <= self.alerts.len(),
                fired@ == self.alerts@.subrange(0, i as int).filter(fired_by(last, now)),
                spared@ == self.alerts@.subrange(0, i as int).filter(spared_by(last, now)),
            decreases self.alerts.len() - i,
        {
            let threshold = self.alerts[i];
            proof {
                lemma_filter_next(self.alerts@, i as int, fired_by(last, now));
                lemma_filter_next(self.alerts@, i as int, spared_by(last, now));
            }
            if (last.lt(threshold) && now.ge(threshold)) || (last.gt(threshold) && now.le(
                threshold,
            )) {
                fired.push(threshold);
            } else {
                spared.push(threshold);
            }
            i += 1;
        }
        proof {
            assert(self.alerts@.subrange(0, i as int) =~= self.alerts@);
            lemma_filter_distinct(self.alerts@, spared_by(last, now));
            lemma_filter_origin(self.alerts@, fired_by(last, now));
            assert forall|k: int| 0 <= k < fired@.len() implies !holds(
                spared@,
                #[trigger] fired@[k],
            ) by {
                lemma_filter_holds(self.alerts@, spared_by(last, now), fired@[k]);
            }
        }
        self.alerts = spared;
        self.last_price = now;
        fired
    }
}

/// The views of a sequence of tickers.
pub open spec fn ticker_views(tickers: Seq<TickerState>) -> Seq<TickerView> {
    tickers.map_values(|ticker: TickerState| ticker@)
}

impl Clone for TickerState {
    fn clone(&self) -> (copy: TickerState)
        ensures
            copy@ == self@,
    {
        TickerState {
            symbol: self.symbol.clone(),
            alerts: self.alerts.clone(),
            last_price: self.last_price,
        }
    }
}

} // verus!
