//! Symbols: the normalized names of tradable instruments.

use vstd::prelude::*;

verus! {

/// The uppercase form of a text, as `str::to_uppercase` of the standard
/// library gives it.
pub uninterp spec fn uppercase(text: Seq<char>) -> Seq<char>;

/// Calls `str::to_uppercase`. The standard library returns the uppercase
/// equivalent of the text as a new string; the contract gives that string the
/// name [`uppercase`] and claims nothing else of it.
#[verifier::external_body]
fn to_uppercase(text: &str) -> (upper: String)
    ensures
        upper@ == uppercase(text@),
{
    text.to_uppercase()
}

/// The name of an instrument, in uppercase. It is the key under which the
/// registry files everything that belongs to the instrument.
#[derive(Debug)]
pub struct Symbol {
    name: String,
}

impl View for Symbol {
    type V = Seq<char>;

    closed spec fn view(&self) -> Seq<char> {
        self.name@
    }
}

impl Symbol {
    /// Normalizes a name as the user or a document wrote it.
    pub fn new(raw: &str) -> (symbol: Symbol)
        ensures
            symbol@ == uppercase(raw@),
    {
        Symbol { name: to_uppercase(raw) }
    }

    /// The normalized name.
    pub fn as_str(&self) -> (name: &str)
        ensures
            name@ == self@,
    {
        self.name.as_str()
    }

    /// Whether two symbols name the same instrument.
    pub fn equals(&self, other: &Symbol) -> (r: bool)
        ensures
            r == (self@ == other@),
    {
        self.name == other.name
    }
}

/// The names of a sequence of symbols.
pub open spec fn names(symbols: Seq<Symbol>) -> Seq<Seq<char>> {
    symbols.map_values(|symbol: Symbol| symbol@)
}

/// A name that is put behind names that differ from it and from each other
/// leaves them different, and joins their set.
pub proof fn lemma_push_name(list: Seq<Seq<char>>, name: Seq<char>)
    requires
        list.no_duplicates(),
        !list.contains(name),
    ensures
        list.push(name).no_duplicates(),
        list.push(name).to_set() == list.to_set().insert(name),
{
    let longer = list.push(name);
    assert forall|a: int, b: int| 0 <= a < longer.len() && 0 <= b < longer.len() && a
        != b implies longer[a] != longer[b] by {
        if a < list.len() {
            assert(list.contains(list[a]));
        }
        if b < list.len() {
            assert(list.contains(list[b]));
        }
    }
    list.lemma_push_to_set_commute(name);
}

/// A name that is taken out of names that differ from each other leaves them
/// different, and leaves their set.
pub proof fn lemma_remove_name(list: Seq<Seq<char>>, i: int)
    requires
        list.no_duplicates(),
        0 <= i < list.len(),
    ensures
        list.remove(i).no_duplicates(),
        list.remove(i).to_set() == list.to_set().remove(list[i]),
{
    let shorter = list.remove(i);
    assert forall|name: Seq<char>| shorter.to_set().contains(name) == list.to_set().remove(
        list[i],
    ).contains(name) by {
        if shorter.contains(name) {
            let k = choose|k: int| 0 <= k < shorter.len() && shorter[k] == name;
            assert(list[if k < i { k } else { k + 1 }] == name);
        }
        if list.contains(name) && name != list[i] {
            let k = choose|k: int| 0 <= k < list.len() && list[k] == name;
            assert(shorter[if k < i { k } else { k - 1 }] == name);
        }
    }
    assert(shorter.to_set() =~= list.to_set().remove(list[i]));
}

impl Clone for Symbol {
    fn clone(&self) -> (copy: Symbol)
        ensures
            copy@ == self@,
    {
        Symbol { name: self.name.clone() }
    }
}

} // verus!
