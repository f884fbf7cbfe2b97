//! The settings document: what of the registry outlives the process.

use vstd::prelude::*;
use vstd::string::StringExecFns;
use crate::model::{default_sound, RegistryView};
use crate::registry::Registry;
use crate::symbol::{names, Symbol};
use crate::ticker::{ticker_views, TickerState, TickerView};

verus! {

/// A settings document, as mathematics.
pub struct SettingsView {
    pub tickers: Seq<TickerView>,
    pub selected_sound: Seq<char>,
    pub ticker_order: Seq<Seq<char>>,
}

/// The symbols of a sequence of tickers, in their order.
pub open spec fn symbols_of(tickers: Seq<TickerView>) -> Seq<Seq<char>> {
    tickers.map_values(|ticker: TickerView| ticker.symbol)
}

impl SettingsView {
    /// The document that stands in for one that is missing or unreadable: no
    /// ticker, the default sound, an empty display order.
    pub open spec fn initial() -> SettingsView {
        SettingsView {
            tickers: Seq::empty(),
            selected_sound: default_sound(),
            ticker_order: Seq::empty(),
        }
    }

    /// Whether the display order is a permutation of the tickers' symbols.
    pub open spec fn order_is_sound(self) -> bool {
        self.ticker_order.to_multiset() == symbols_of(self.tickers).to_multiset()
    }

    /// The document with a sound display order: its own where that is a
    /// permutation of the tickers' symbols, else the symbols as the tickers
    /// stand.
    pub open spec fn normalized(self) -> SettingsView {
        if self.order_is_sound() {
            self
        } else {
            SettingsView { ticker_order: symbols_of(self.tickers), ..self }
        }
    }

    /// What loading makes of the stored document: `None` stands for a
    /// document that is missing or cannot be read.
    pub open spec fn loaded(document: Option<SettingsView>) -> SettingsView {
        match document {
            Some(found) => found.normalized(),
            None => SettingsView::initial(),
        }
    }
}

impl RegistryView {
    /// The document that saves the registry.
    pub open spec fn snapshot(self) -> SettingsView {
        SettingsView {
            tickers: self.tickers,
            selected_sound: self.selected_sound,
            ticker_order: self.ticker_order,
        }
    }

    /// After one record of a document was restored: its symbol is
    /// subscribed, then its alerts are set, then its last price.
    pub open spec fn with_record(self, record: TickerView) -> RegistryView {
        self.after_start(record.symbol).after_set_alerts(
            record.symbol,
            record.alerts,
        ).after_set_last_price(record.symbol, record.last_price)
    }

    /// After the records were restored, one after the other.
    pub open spec fn with_records(self, records: Seq<TickerView>) -> RegistryView
        decreases records.len(),
    {
        if records.len() == 0 {
            self
        } else {
            self.with_records(records.drop_last()).with_record(records.last())
        }
    }

    /// The registry that a document restores at startup.
    pub open spec fn restored(settings: SettingsView) -> RegistryView {
        (RegistryView {
            selected_sound: settings.selected_sound,
            ticker_order: settings.ticker_order,
            ..RegistryView::initial()
        }).with_records(settings.tickers)
    }
}

/// A settings document: the tickers, the selected sound and the display
/// order.
#[derive(Debug)]
pub struct AppSettings {
    pub tickers: Vec<TickerState>,
    pub selected_sound: String,
    pub ticker_order: Vec<Symbol>,
}

impl View for AppSettings {
    type V = SettingsView;

    open spec fn view(&self) -> SettingsView {
        SettingsView {
            tickers: ticker_views(self.tickers@),
            selected_sound: self.selected_sound@,
            ticker_order: names(self.ticker_order@),
        }
    }
}

/// The view of what was found in the store.
pub open spec fn stored_view(stored: Option<AppSettings>) -> Option<SettingsView> {
    match stored {
        Some(found) => Some(found@),
        None => None,
    }
}

/// How often `symbol` occurs in `list`.
fn occurrences(list: &Vec<Symbol>, symbol: &Symbol) -> (n: usize)
    ensures
        n == names(list@).to_multiset().count(symbol@),
{
    broadcast use vstd::seq_lib::group_to_multiset_ensures;
    broadcast use vstd::multiset::group_multiset_axioms;

    let mut n: usize = 0;
    let mut i: usize = 0;
    while i < list.len()
        invariant
            i <= list.len(),
            n <= i,
            n == names(list@).subrange(0, i as int).to_multiset().count(symbol@),
        decreases list.len() - i,
    {
        proof {
            let all = names(list@);
            let seen = all.subrange(0, i as int);
            assert(all.subrange(0, i + 1) =~= seen.push(all[i as int]));
            vstd::seq_lib::to_multiset_build(seen, all[i as int]);
        }
        if list[i].equals(symbol) {
            n += 1;
        }
        i += 1;
    }
    proof {
        assert(names(list@).subrange(0, i as int) =~= names(list@));
    }
    n
}

/// Whether each symbol of `list` occurs as often in `left` as in `right`.
fn agree_on(list: &Vec<Symbol>, left: &Vec<Symbol>, right: &Vec<Symbol>) -> (agree: bool)
    ensures
        agree == (forall|k: int|
            0 <= k < list.len() ==> names(left@).to_multiset().count(#[trigger] names(list@)[k])
                == names(right@).to_multiset().count(names(list@)[k])),
{
    let mut i: usize = 0;
    while i < list.len()
        invariant
            i <= list.len(),
            forall|k: int|
                0 <= k < i ==> names(left@).to_multiset().count(#[trigger] names(list@)[k])
                    == names(right@).to_multiset().count(names(list@)[k]),
        decreases list.len() - i,
    {
        if occurrences(left, &list[i]) != occurrences(right, &list[i]) {
            proof {
                assert(names(list@)[i as int] == list@[i as int]@);
            }
            return false;
        }
        i += 1;
    }
    true
}

/// Whether `left` is a permutation of `right`.
fn is_permutation(left: &Vec<Symbol>, right: &Vec<Symbol>) -> (same: bool)
    ensures
        same == (names(left@).to_multiset() == names(right@).to_multiset()),
{
    broadcast use vstd::seq_lib::group_to_multiset_ensures;
    broadcast use vstd::multiset::group_multiset_axioms;

    if !agree_on(left, left, right) {
        return false;
    }
    if !agree_on(right, left, right) {
        return false;
    }
    proof {
        let a = names(left@);
        let b = names(right@);
        assert forall|name: Seq<char>| a.to_multiset().count(name) == b.to_multiset().count(
            name,
        ) by {
            if a.contains(name) {
                let k = choose|k: int| 0 <= k < a.len() && a[k] == name;
                assert(a.to_multiset().count(a[k]) == b.to_multiset().count(a[k]));
            } else if b.contains(name) {
                let k = choose|k: int| 0 <= k < b.len() && b[k] == name;
                assert(a.to_multiset().count(b[k]) == b.to_multiset().count(b[k]));
            }
        }
        assert(a.to_multiset() =~= b.to_multiset());
    }
    true
}

/// The symbols of `tickers`, in their order.
fn ticker_symbols(tickers: &Vec<TickerState>) -> (symbols: Vec<Symbol>)
    ensures
        names(symbols@) == symbols_of(ticker_views(tickers@)),
{
    let mut symbols: Vec<Symbol> = Vec::new();
    let mut i: usize = 0;
    while i < tickers.len()
        invariant
            i <= tickers.len(),
            names(symbols@) == symbols_of(ticker_views(tickers@)).subrange(0, i as int),
        decreases tickers.len() - i,
    {
        symbols.push(tickers[i].symbol().clone());
        proof {
            let all = symbols_of(ticker_views(tickers@));
            assert(names(symbols@) =~= all.subrange(0, i as int).push(all[i as int]));
        }
        i += 1;
    }
    symbols
}

/// A copy of `tickers`.
fn copy_tickers(tickers: &Vec<TickerState>) -> (copy: Vec<TickerState>)
    ensures
        ticker_views(copy@) == ticker_views(tickers@),
{
    let mut copy: Vec<TickerState> = Vec::new();
    let mut i: usize = 0;
    while i < tickers.len()
        invariant
            i <= tickers.len(),
            ticker_views(copy@) == ticker_views(tickers@).subrange(0, i as int),
        decreases tickers.len() - i,
    {
        copy.push(tickers[i].clone());
        proof {
            let all = ticker_views(tickers@);
            assert(ticker_views(copy@) =~= all.subrange(0, i as int).push(all[i as int]));
        }
        i += 1;
    }
    copy
}

/// A copy of `symbols`.
fn copy_symbols(symbols: &Vec<Symbol>) -> (copy: Vec<Symbol>)
    ensures
        names(copy@) == names(symbols@),
{
    let mut copy: Vec<Symbol> = Vec::new();
    let mut i: usize = 0;
    while i < symbols.len()
        invariant
            i <= symbols.len(),
            names(copy@) == names(symbols@).subrange(0, i as int),
        decreases symbols.len() - i,
    {
        copy.push(symbols[i].clone());
        proof {
            let all = names(symbols@);
            assert(names(copy@) =~= all.subrange(0, i as int).push(all[i as int]));
        }
        i += 1;
    }
    copy
}

impl AppSettings {
    /// The document that stands in for one that is missing or unreadable.
    pub fn default_document() -> (document: AppSettings)
        ensures
            document@ == SettingsView::initial(),
            document@.order_is_sound(),
    {
        let document = AppSettings {
            tickers: Vec::new(),
            selected_sound: String::from_str("beep.mp3"),
            ticker_order: Vec::new(),
        };
        proof {
            assert(ticker_views(document.tickers@) =~= Seq::empty());
            assert(names(document.ticker_order@) =~= Seq::empty());
            assert(symbols_of(document@.tickers) =~= document@.ticker_order);
        }
        document
    }

    /// Repairs the display order: an order that is no permutation of the
    /// tickers' symbols is replaced by the symbols as the tickers stand. An
    /// order of another length than the tickers is always replaced.
    pub fn normalize(self) -> (document: AppSettings)
        ensures
            document@ == self@.normalized(),
            document@.order_is_sound(),
            self@.ticker_order.len() != self@.tickers.len() ==> document@.ticker_order
                == symbols_of(self@.tickers),
    {
        proof {
            vstd::seq_lib::to_multiset_len(self@.ticker_order);
            vstd::seq_lib::to_multiset_len(symbols_of(self@.tickers));
        }
        let symbols = ticker_symbols(&self.tickers);
        if is_permutation(&self.ticker_order, &symbols) {
            self
        } else {
            AppSettings {
                tickers: self.tickers,
                selected_sound: self.selected_sound,
                ticker_order: symbols,
            }
        }
    }

    /// What loading makes of the stored document: a document that was read is
    /// normalized; `None`, for one that is missing or cannot be read, gives
    /// the default document.
    pub fn load(stored: Option<AppSettings>) -> (document: AppSettings)
        ensures
            document@ == SettingsView::loaded(stored_view(stored)),
            document@.order_is_sound(),
    {
        match stored {
            Some(found) => found.normalize(),
            None => AppSettings::default_document(),
        }
    }
}

impl Registry {
    /// The document that saves the registry: every ticker, the selected sound
    /// and the display order.
    pub fn snapshot(&self) -> (document: AppSettings)
        ensures
            document@ == self@.snapshot(),
    {
        AppSettings {
            tickers: copy_tickers(self.tickers()),
            selected_sound: String::from_str(self.selected_sound()),
            ticker_order: copy_symbols(self.ticker_order()),
        }
    }

    /// The registry at startup, from what was found in the store: the stored
    /// document is loaded, which repairs its display order or puts the
    /// default document in its place, and the registry is built from it. The
    /// caller opens a feed connection for each symbol that is subscribed
    /// afterwards.
    pub fn restore(stored: Option<AppSettings>) -> (registry: Registry)
        ensures
            registry.wf(),
            registry@ == RegistryView::restored(SettingsView::loaded(stored_view(stored))),
    {
        Registry::from_document(AppSettings::load(stored))
    }

    /// The registry that a loaded document describes. It takes the sound and
    /// the display order of the document. Then, record by record, it
    /// subscribes the symbol, sets the alerts and sets the last price.
    pub fn from_document(settings: AppSettings) -> (registry: Registry)
        ensures
            registry.wf(),
            registry@ == RegistryView::restored(settings@),
    {
        let mut registry = Registry::new();
        registry.set_selected_sound(settings.selected_sound);
        registry.update_ticker_order(settings.ticker_order);
        let ghost start = registry@;
        let ghost records = ticker_views(settings.tickers@);
        let mut i: usize = 0;
        while i < settings.tickers.len()
            invariant
                i <= settings.tickers.len(),
                records == ticker_views(settings.tickers@),
                registry.wf(),
                registry@ == start.with_records(records.subrange(0, i as int)),
            decreases settings.tickers.len() - i,
        {
            let record = &settings.tickers[i];
            let ghost before = registry@;
            proof {
                registry.lemma_wf();
                assert(records.subrange(0, i + 1).drop_last() =~= records.subrange(0, i as int));
            }
            let _ = registry.start(record.symbol());
            proof {
                registry.lemma_wf();
                assert(registry@.subscriptions =~= before.after_start(
                    record@.symbol,
                ).subscriptions);
                registry@.lemma_after_set_alerts(record@.symbol, record@.alerts);
            }
            registry.set_alerts(record.symbol(), record.alerts().clone());
            let _ = registry.set_last_price(record.symbol(), record.last_price());
            i += 1;
        }
        proof {
            assert(records.subrange(0, i as int) =~= records);
        }
        registry
    }
}

} // verus!
