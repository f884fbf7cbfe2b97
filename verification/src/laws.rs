//! What holds of the engine whatever the user and the feed do.

use vstd::prelude::*;
use crate::alerts::{
    crosses, distinct, fired_by, holds, lemma_distinct_front, lemma_filter_distinct,
    lemma_filter_holds, lemma_filter_origin, lemma_first_occurrences_of_distinct, spared_by,
};
use crate::events::EventView;
use crate::feed::{next_step, ConnectorStep, FeedEvent};
use crate::model::RegistryView;
use crate::price::Price;
use crate::settings::{symbols_of, SettingsView};
use crate::ticker::TickerView;

verus! {

/// A price that sits at a threshold fires nothing there, wherever it goes
/// next; a tick that stays on one side of a threshold fires nothing there;
/// and nothing fires where one of the three numbers is a NaN.
pub proof fn law_crossing_needs_an_arrival(last: Price, now: Price, threshold: Price)
    ensures
        last.spec_same(threshold) ==> !crosses(last, now, threshold),
        last.spec_lt(threshold) && now.spec_lt(threshold) ==> !crosses(last, now, threshold),
        last.spec_gt(threshold) && now.spec_gt(threshold) ==> !crosses(last, now, threshold),
        last.spec_is_nan() || now.spec_is_nan() || threshold.spec_is_nan() ==> !crosses(
            last,
            now,
            threshold,
        ),
{
}

/// Adding an alert where the symbol has none at that threshold keeps the
/// registry well formed and puts the threshold behind the alerts of the
/// symbol.
pub proof fn lemma_after_add_alert(registry: RegistryView, symbol: Seq<char>, price: Price)
    requires
        registry.wf(),
        !holds(registry.alerts_of(symbol), price),
    ensures
        registry.after_add_alert(symbol, price).wf(),
        registry.after_add_alert(symbol, price).has_ticker(symbol),
        registry.after_add_alert(symbol, price).alerts_of(symbol) == registry.alerts_of(
            symbol,
        ).push(price),
{
    let ready = registry.with_ticker(symbol, Price::spec_zero());
    registry.lemma_with_ticker(symbol, Price::spec_zero());
    let before = ready.ticker(symbol);
    assert(ready.tickers[ready.position(symbol)].symbol == symbol);
    assert(distinct(before.alerts.push(price))) by {
        assert forall|i: int| 0 <= i < before.alerts.len() implies !(
        #[trigger] before.alerts[i]).spec_same(price) by {
            if before.alerts[i].spec_same(price) {
                assert(holds(before.alerts, price));
            }
        }
    }
    ready.lemma_put(before.with_alert(price));
}

/// Alerts that are added at thresholds that differ from each other and from
/// those that the symbol already has are all accepted, and the symbol then
/// has exactly its former alerts and the added ones, in the order of their
/// addition.
pub proof fn law_additions_accumulate(registry: RegistryView, symbol: Seq<char>, prices: Seq<Price>)
    requires
        registry.wf(),
        distinct(prices),
        forall|k: int|
            0 <= k < prices.len() ==> !holds(registry.alerts_of(symbol), #[trigger] prices[k]),
    ensures
        registry.after_add_alerts(symbol, prices).wf(),
        registry.after_add_alerts(symbol, prices).alerts_of(symbol) == registry.alerts_of(symbol)
            + prices,
        forall|k: int|
            #![trigger prices[k]]
            0 <= k < prices.len() ==> !holds(
                registry.after_add_alerts(symbol, prices.subrange(0, k)).alerts_of(symbol),
                prices[k],
            ),
    decreases prices.len(),
{
    let former = registry.alerts_of(symbol);
    if prices.len() > 0 {
        let front = prices.drop_last();
        let last = prices.last();
        lemma_distinct_front(prices);
        assert forall|k: int| 0 <= k < front.len() implies !holds(former, #[trigger] front[k]) by {
            assert(front[k] == prices[k]);
        }
        law_additions_accumulate(registry, symbol, front);
        let held = former + front;
        assert(!holds(held, last)) by {
            if holds(held, last) {
                let i = choose|i: int| 0 <= i < held.len() && (#[trigger] held[i]).spec_same(last);
                if i < former.len() {
                    assert(holds(former, prices[prices.len() - 1]));
                } else {
                    assert(prices[i - former.len()].spec_same(prices[prices.len() - 1]));
                }
            }
        }
        lemma_after_add_alert(registry.after_add_alerts(symbol, front), symbol, last);
        assert(held.push(last) =~= former + prices);
        assert forall|k: int| #![trigger prices[k]] 0 <= k < prices.len() implies !holds(
            registry.after_add_alerts(symbol, prices.subrange(0, k)).alerts_of(symbol),
            prices[k],
        ) by {
            if k < front.len() {
                assert(prices.subrange(0, k) =~= front.subrange(0, k));
                assert(front[k] == prices[k]);
            } else {
                assert(prices.subrange(0, k) =~= front);
            }
        }
    } else {
        assert(former + prices =~= former);
    }
}

/// Fire once: after a tick, the symbol has no alert at any threshold that the
/// tick fired.
pub proof fn law_fire_once(registry: RegistryView, symbol: Seq<char>, now: Price)
    requires
        registry.wf(),
    ensures
        registry.after_tick(symbol, now).wf(),
        forall|k: int|
            0 <= k < registry.fired(symbol, now).len() ==> !holds(
                registry.after_tick(symbol, now).alerts_of(symbol),
                #[trigger] registry.fired(symbol, now)[k],
            ),
{
    if registry.is_subscribed(symbol) {
        let ready = registry.with_ticker(symbol, now);
        registry.lemma_with_ticker(symbol, now);
        let before = ready.ticker(symbol);
        assert(ready.tickers[ready.position(symbol)].symbol == symbol);
        lemma_filter_distinct(before.alerts, spared_by(before.last_price, now));
        ready.lemma_put(before.after_tick(now));
        if registry.has_ticker(symbol) {
            let fired = registry.fired(symbol, now);
            lemma_filter_origin(before.alerts, fired_by(before.last_price, now));
            assert forall|k: int| 0 <= k < fired.len() implies !holds(
                before.after_tick(now).alerts,
                #[trigger] fired[k],
            ) by {
                lemma_filter_holds(before.alerts, spared_by(before.last_price, now), fired[k]);
            }
        }
    }
}

/// A removed symbol stays silent: it has neither subscription nor ticker, and
/// a tick for it, such as one that was still in flight, publishes nothing and
/// changes nothing.
pub proof fn law_removed_symbol_is_silent(registry: RegistryView, symbol: Seq<char>, now: Price)
    requires
        registry.wf(),
    ensures
        registry.after_remove(symbol).wf(),
        !registry.after_remove(symbol).is_subscribed(symbol),
        !registry.after_remove(symbol).has_ticker(symbol),
        registry.after_remove(symbol).tick_events(symbol, now) == Seq::<EventView>::empty(),
        registry.after_remove(symbol).after_tick(symbol, now) == registry.after_remove(symbol),
{
    registry.lemma_after_remove(symbol);
}

/// Restoring records subscribes their symbols and touches no other
/// subscription.
proof fn lemma_records_subscribe(start: RegistryView, records: Seq<TickerView>)
    ensures
        start.with_records(records).subscriptions == start.subscriptions.union(
            symbols_of(records).to_set(),
        ),
    decreases records.len(),
{
    let symbols = symbols_of(records);
    if records.len() > 0 {
        let front = records.drop_last();
        lemma_records_subscribe(start, front);
        assert(symbols =~= symbols_of(front).push(records.last().symbol));
        symbols_of(front).lemma_push_to_set_commute(records.last().symbol);
    }
    assert(start.with_records(records).subscriptions =~= start.subscriptions.union(
        symbols.to_set(),
    ));
}

/// Restore subscribes every record: the symbols with a live subscription in
/// a restored registry are exactly the symbols of the document's tickers.
pub proof fn law_restore_subscribes_every_record(document: SettingsView)
    ensures
        RegistryView::restored(document).subscriptions == symbols_of(document.tickers).to_set(),
{
    let start = RegistryView {
        selected_sound: document.selected_sound,
        ticker_order: document.ticker_order,
        ..RegistryView::initial()
    };
    lemma_records_subscribe(start, document.tickers);
    assert(start.subscriptions.union(symbols_of(document.tickers).to_set()) =~= symbols_of(
        document.tickers,
    ).to_set());
}

/// Restoring well-formed tickers of different symbols into a registry
/// without tickers gives exactly those tickers, in their order.
proof fn lemma_records_restore(start: RegistryView, records: Seq<TickerView>)
    requires
        start.wf(),
        start.tickers.len() == 0,
        forall|i: int| 0 <= i < records.len() ==> (#[trigger] records[i]).wf(),
        forall|i: int, j: int|
            0 <= i < j < records.len() ==> (#[trigger] records[i]).symbol != (
            #[trigger] records[j]).symbol,
    ensures
        start.with_records(records).wf(),
        start.with_records(records).tickers == records,
        start.with_records(records).selected_sound == start.selected_sound,
        start.with_records(records).ticker_order == start.ticker_order,
    decreases records.len(),
{
    if records.len() > 0 {
        let front = records.drop_last();
        let record = records.last();
        assert forall|i: int| 0 <= i < front.len() implies (#[trigger] front[i]).wf() by {
            assert(front[i] == records[i]);
        }
        assert forall|i: int, j: int| 0 <= i < j < front.len() implies (#[trigger] front[i]).symbol
            != (#[trigger] front[j]).symbol by {
            assert(front[i] == records[i] && front[j] == records[j]);
        }
        lemma_records_restore(start, front);
        // The symbol of the record is new: its ticker is put behind the others.
        let started = start.with_records(front).after_start(record.symbol);
        vstd::set::axiom_set_insert_finite(start.with_records(front).subscriptions, record.symbol);
        assert(!started.has_ticker(record.symbol)) by {
            if started.has_ticker(record.symbol) {
                let i = started.position(record.symbol);
                assert(records[i].symbol != records[records.len() - 1].symbol);
            }
        }
        started.lemma_with_ticker(record.symbol, Price::spec_zero());
        // Its alerts are distinct, so all of them are taken.
        started.lemma_after_set_alerts(record.symbol, record.alerts);
        lemma_first_occurrences_of_distinct(record.alerts);
        let set = started.after_set_alerts(record.symbol, record.alerts);
        set.lemma_position(record.symbol, front.len() as int);
        set.lemma_put(set.ticker(record.symbol).with_last_price(record.last_price));
        assert(start.with_records(records).tickers =~= records);
    }
}

/// Save and restore: the registry that the saved document restores has the
/// tickers of the saved registry, with their alerts and last prices and in
/// their order, and its sound. It has its display order too, where that is a
/// permutation of the tickers' symbols; any other order comes back as the
/// symbols of the tickers as they stand.
pub proof fn law_snapshot_round_trip(registry: RegistryView)
    requires
        registry.wf(),
    ensures
        ({
            let back = RegistryView::restored(SettingsView::loaded(Some(registry.snapshot())));
            &&& back.wf()
            &&& back.tickers == registry.tickers
            &&& back.selected_sound == registry.selected_sound
            &&& back.ticker_order == if registry.snapshot().order_is_sound() {
                registry.ticker_order
            } else {
                symbols_of(registry.tickers)
            }
        }),
{
    let document = SettingsView::loaded(Some(registry.snapshot()));
    let start = RegistryView {
        selected_sound: document.selected_sound,
        ticker_order: document.ticker_order,
        ..RegistryView::initial()
    };
    lemma_records_restore(start, document.tickers);
}

/// A document whose display order has another length than its tickers loads
/// with the symbols of its tickers as its order.
pub proof fn law_order_of_other_length_is_rebuilt(document: SettingsView)
    requires
        document.ticker_order.len() != document.tickers.len(),
    ensures
        document.normalized().ticker_order == symbols_of(document.tickers),
        document.normalized().tickers == document.tickers,
        document.normalized().selected_sound == document.selected_sound,
{
    vstd::seq_lib::to_multiset_len(document.ticker_order);
    vstd::seq_lib::to_multiset_len(symbols_of(document.tickers));
}

/// Whatever was stored, the display order of the loaded document is a
/// permutation of the symbols of its tickers.
pub proof fn law_loaded_order_is_sound(stored: Option<SettingsView>)
    ensures
        SettingsView::loaded(stored).order_is_sound(),
{
    assert(symbols_of(SettingsView::initial().tickers) =~= SettingsView::initial().ticker_order);
}

/// A frame that gives no price never ends the connector and never becomes a
/// tick, so it cannot reach the registry.
pub proof fn law_bad_frames_are_skipped()
    ensures
        next_step(FeedEvent::Frame(None)) == ConnectorStep::Skip,
        forall|event: FeedEvent|
            (#[trigger] next_step(event)) is Forward ==> event matches FeedEvent::Frame(Some(_)),
{
}

} // verus!
