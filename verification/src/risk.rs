//! The book of open positions that risk management keeps, one position
//! per trading pair. What a position holds (prices, stops, quantities)
//! is up to the program; the book keeps them found by symbol.

use vstd::prelude::*;
use vstd::string::*;
use crate::text::text_eq;

verus! {

/// No two entries share a symbol.
pub open spec fn distinct_symbols<P>(s: Seq<(String, P)>) -> bool {
    forall|i: int, j: int|
        0 <= i < s.len() && 0 <= j < s.len() && i != j ==> #[trigger] s[i].0@ != #[trigger] s[j].0@
}

/// The entries as a map from symbol to position.
pub open spec fn entries_map<P>(s: Seq<(String, P)>) -> Map<Seq<char>, P>
    decreases s.len(),
{
    if s.len() == 0 {
        Map::empty()
    } else {
        entries_map(s.drop_last()).insert(s.last().0@, s.last().1)
    }
}

/// The symbols of the entries, in order.
pub open spec fn entry_symbols<P>(s: Seq<(String, P)>) -> Seq<Seq<char>> {
    Seq::new(s.len(), |i: int| s[i].0@)
}

proof fn lemma_entries_map<P>(s: Seq<(String, P)>)
    requires
        distinct_symbols(s),
    ensures
        forall|k: Seq<char>|
            #[trigger] entries_map(s).contains_key(k) <==> exists|j: int|
                0 <= j < s.len() && s[j].0@ == k,
        forall|j: int| 0 <= j < s.len() ==> entries_map(s)[#[trigger] s[j].0@] == s[j].1,
        entries_map(s).dom().finite(),
        entries_map(s).dom().len() == s.len(),
    decreases s.len(),
{
    if s.len() > 0 {
        let t = s.drop_last();
        let last = s.last();
        assert(distinct_symbols(t)) by {
            assert forall|i: int, j: int|
                0 <= i < t.len() && 0 <= j < t.len() && i != j implies #[trigger] t[i].0@
                != #[trigger] t[j].0@ by {
                assert(t[i] == s[i] && t[j] == s[j]);
            }
        }
        lemma_entries_map(t);
        let m = entries_map(t);
        assert(entries_map(s) == m.insert(last.0@, last.1));
        assert forall|k: Seq<char>|
            #[trigger] entries_map(s).contains_key(k) <==> exists|j: int|
                0 <= j < s.len() && s[j].0@ == k by {
            if entries_map(s).contains_key(k) {
                if k != last.0@ {
                    assert(m.contains_key(k));
                    let j = choose|j: int| 0 <= j < t.len() && t[j].0@ == k;
                    assert(s[j] == t[j]);
                } else {
                    assert(s[s.len() - 1].0@ == k);
                }
            }
            if exists|j: int| 0 <= j < s.len() && s[j].0@ == k {
                let j = choose|j: int| 0 <= j < s.len() && s[j].0@ == k;
                if j < s.len() - 1 {
                    assert(t[j] == s[j]);
                    assert(m.contains_key(k));
                }
            }
        }
        assert forall|j: int| 0 <= j < s.len() implies entries_map(s)[#[trigger] s[j].0@]
            == s[j].1 by {
            if j < s.len() - 1 {
                assert(t[j] == s[j]);
                assert(s[j].0@ != s[s.len() - 1].0@);
            }
        }
        assert(!m.contains_key(last.0@)) by {
            if m.contains_key(last.0@) {
                let j = choose|j: int| 0 <= j < t.len() && t[j].0@ == last.0@;
                assert(t[j] == s[j]);
                assert(s[j].0@ != s[s.len() - 1].0@);
            }
        }
        assert(entries_map(s).dom() == m.dom().insert(last.0@));
    }
}

fn find_entry<P>(entries: &Vec<(String, P)>, symbol: &str) -> (r: Option<usize>)
    requires
        distinct_symbols(entries@),
    ensures
        match r {
            Some(i) => i < entries@.len() && entries@[i as int].0@ == symbol@,
            None => !entries_map(entries@).contains_key(symbol@),
        },
{
    proof {
        lemma_entries_map(entries@);
    }
    let mut i: usize = 0;
    while i < entries.len()
        invariant
            i <= entries@.len(),
            forall|j: int| 0 <= j < i ==> entries@[j].0@ != symbol@,
        decreases entries.len() - i,
    {
        if text_eq(entries[i].0.as_str(), symbol) {
            return Some(i);
        }
        i += 1;
    }
    None
}

fn insert_entry<P>(entries: &mut Vec<(String, P)>, symbol: String, position: P)
    requires
        distinct_symbols(old(entries)@),
    ensures
        distinct_symbols(final(entries)@),
        entries_map(final(entries)@) == entries_map(old(entries)@).insert(symbol@, position),
        entries_map(old(entries)@).contains_key(symbol@) ==> entry_symbols(final(entries)@)
            == entry_symbols(old(entries)@),
        !entries_map(old(entries)@).contains_key(symbol@) ==> entry_symbols(final(entries)@)
            == entry_symbols(old(entries)@).push(symbol@),
{
    let ghost s = entries@;
    let ghost k = symbol@;
    proof {
        lemma_entries_map(s);
    }
    match find_entry(entries, symbol.as_str()) {
        Some(i) => {
            entries.set(i, (symbol, position));
            let ghost s2 = entries@;
            assert(s2 == s.update(i as int, (s2[i as int].0, position)));
            assert(distinct_symbols(s2)) by {
                assert forall|a: int, b: int|
                    0 <= a < s2.len() && 0 <= b < s2.len() && a != b implies #[trigger] s2[a].0@
                    != #[trigger] s2[b].0@ by {
                    if a != i && b != i {
                        assert(s2[a] == s[a] && s2[b] == s[b]);
                    } else if a == i {
                        assert(s2[b] == s[b]);
                        assert(s[a].0@ == k);
                    } else {
                        assert(s2[a] == s[a]);
                        assert(s[b].0@ == k);
                    }
                }
            }
            proof {
                lemma_entries_map(s2);
            }
            assert(entries_map(s2) =~= entries_map(s).insert(k, position)) by {
                assert forall|key: Seq<char>|
                    #[trigger] entries_map(s2).contains_key(key) <==> entries_map(s).insert(
                        k,
                        position,
                    ).contains_key(key) by {
                    if entries_map(s2).contains_key(key) {
                        let j = choose|j: int| 0 <= j < s2.len() && s2[j].0@ == key;
                        if j != i {
                            assert(s2[j] == s[j]);
                        }
                    }
                    if entries_map(s).contains_key(key) {
                        let j = choose|j: int| 0 <= j < s.len() && s[j].0@ == key;
                        if j != i {
                            assert(s2[j] == s[j]);
                        } else {
                            assert(s2[j].0@ == key);
                        }
                    }
                }
                assert forall|key: Seq<char>| #[trigger]
                    entries_map(s2).contains_key(key) implies entries_map(s2)[key]
                    == entries_map(s).insert(k, position)[key] by {
                    let j = choose|j: int| 0 <= j < s2.len() && s2[j].0@ == key;
                    assert(entries_map(s2)[s2[j].0@] == s2[j].1);
                    if j != i {
                        assert(s2[j] == s[j]);
                        assert(entries_map(s)[s[j].0@] == s[j].1);
                    }
                }
            }
            assert(entry_symbols(s2) =~= entry_symbols(s)) by {
                assert forall|j: int| 0 <= j < s.len() implies entry_symbols(s2)[j]
                    == entry_symbols(s)[j] by {
                    if j != i {
                        assert(s2[j] == s[j]);
                    }
                }
            }
        },
        None => {
            entries.push((symbol, position));
            let ghost s2 = entries@;
            assert(s2.drop_last() =~= s);
            assert(distinct_symbols(s2)) by {
                assert forall|a: int, b: int|
                    0 <= a < s2.len() && 0 <= b < s2.len() && a != b implies #[trigger] s2[a].0@
                    != #[trigger] s2[b].0@ by {
                    if a < s.len() && b < s.len() {
                        assert(s2[a] == s[a] && s2[b] == s[b]);
                    } else if a < s.len() {
                        assert(s2[a] == s[a]);
                        assert(entries_map(s)[s[a].0@] == s[a].1);
                    } else {
                        assert(s2[b] == s[b]);
                        assert(entries_map(s)[s[b].0@] == s[b].1);
                    }
                }
            }
            assert(entry_symbols(s2) =~= entry_symbols(s).push(k));
        },
    }
}

fn remove_entry<P>(entries: &mut Vec<(String, P)>, symbol: &str) -> (r: Option<P>)
    requires
        distinct_symbols(old(entries)@),
    ensures
        distinct_symbols(final(entries)@),
        entries_map(final(entries)@) == entries_map(old(entries)@).remove(symbol@),
        r == if entries_map(old(entries)@).contains_key(symbol@) {
            Some(entries_map(old(entries)@)[symbol@])
        } else {
            None::<P>
        },
        entry_symbols(final(entries)@) == symbols_without(entry_symbols(old(entries)@), symbol@),
{
    let ghost s = entries@;
    let ghost k = symbol@;
    proof {
        lemma_entries_map(s);
    }
    match find_entry(entries, symbol) {
        Some(i) => {
            let (_, p) = entries.remove(i);
            let ghost s2 = entries@;
            assert(s2 =~= s.remove(i as int));
            assert(distinct_symbols(s2)) by {
                assert forall|a: int, b: int|
                    0 <= a < s2.len() && 0 <= b < s2.len() && a != b implies #[trigger] s2[a].0@
                    != #[trigger] s2[b].0@ by {
                    let a0 = if a < i { a } else { a + 1 };
                    let b0 = if b < i { b } else { b + 1 };
                    assert(s2[a] == s[a0] && s2[b] == s[b0]);
                }
            }
            proof {
                lemma_entries_map(s2);
            }
            assert(entries_map(s2) =~= entries_map(s).remove(k)) by {
                assert forall|key: Seq<char>|
                    #[trigger] entries_map(s2).contains_key(key) <==> entries_map(s).remove(
                        k,
                    ).contains_key(key) by {
                    if entries_map(s2).contains_key(key) {
                        let j = choose|j: int| 0 <= j < s2.len() && s2[j].0@ == key;
                        let j0 = if j < i { j } else { j + 1 };
                        assert(s2[j] == s[j0]);
                        assert(s[j0].0@ != s[i as int].0@);
                    }
                    if entries_map(s).contains_key(key) && key != k {
                        let j = choose|j: int| 0 <= j < s.len() && s[j].0@ == key;
                        assert(j != i);
                        let j2 = if j < i { j } else { j - 1 };
                        assert(s2[j2] == s[j]);
                    }
                }
                assert forall|key: Seq<char>| #[trigger]
                    entries_map(s2).contains_key(key) implies entries_map(s2)[key]
                    == entries_map(s).remove(k)[key] by {
                    let j = choose|j: int| 0 <= j < s2.len() && s2[j].0@ == key;
                    let j0 = if j < i { j } else { j + 1 };
                    assert(s2[j] == s[j0]);
                    assert(entries_map(s2)[s2[j].0@] == s2[j].1);
                    assert(entries_map(s)[s[j0].0@] == s[j0].1);
                }
            }
            assert(entries_map(s)[s[i as int].0@] == s[i as int].1);
            proof {
                lemma_filter_remove_at(entry_symbols(s), i as int, k);
            }
            assert(entry_symbols(s2) =~= entry_symbols(s).remove(i as int));
            Some(p)
        },
        None => {
            proof {
                assert(!entry_symbols(s).contains(k)) by {
                    if entry_symbols(s).contains(k) {
                        let j = choose|j: int|
                            0 <= j < entry_symbols(s).len() && entry_symbols(s)[j] == k;
                        assert(s[j].0@ == k);
                    }
                }
                lemma_filter_absent(entry_symbols(s), k);
            }
            assert(entries_map(s).remove(k) =~= entries_map(s));
            None
        },
    }
}

/// Open positions by trading pair, each symbol at most once, in the
/// order they were first added.
pub struct PositionBook<P> {
    entries: Vec<(String, P)>,
}

impl<P> View for PositionBook<P> {
    type V = Map<Seq<char>, P>;

    closed spec fn view(&self) -> Map<Seq<char>, P> {
        entries_map(self.entries@)
    }
}

impl<P> PositionBook<P> {
    /// The book's invariant: no symbol occurs twice.
    #[verifier::type_invariant]
    spec fn wf(self) -> bool {
        distinct_symbols(self.entries@)
    }

    /// The symbols of the book, in the order positions were first added.
    pub closed spec fn symbol_order(&self) -> Seq<Seq<char>> {
        entry_symbols(self.entries@)
    }

    /// An empty book.
    pub fn new() -> (b: Self)
        ensures
            b@ == Map::<Seq<char>, P>::empty(),
            b.symbol_order() == Seq::<Seq<char>>::empty(),
    {
        let b = PositionBook { entries: Vec::new() };
        assert(b.symbol_order() =~= Seq::<Seq<char>>::empty());
        b
    }

    /// Records the position of `symbol`, replacing the one it had.
    /// A new symbol goes last in the symbol order; a replaced one keeps its place.
    pub fn insert(&mut self, symbol: String, position: P)
        ensures
            final(self)@ == old(self)@.insert(symbol@, position),
            old(self)@.contains_key(symbol@) ==> final(self).symbol_order() == old(
                self,
            ).symbol_order(),
            !old(self)@.contains_key(symbol@) ==> final(self).symbol_order() == old(
                self,
            ).symbol_order().push(symbol@),
    {
        proof {
            use_type_invariant(&*self);
        }
        let mut entries: Vec<(String, P)> = Vec::new();
        std::mem::swap(&mut entries, &mut self.entries);
        insert_entry(&mut entries, symbol, position);
        self.entries = entries;
    }

    /// Takes the position of `symbol` out of the book, and returns it.
    /// The other symbols keep their order.
    pub fn remove(&mut self, symbol: &str) -> (r: Option<P>)
        ensures
            final(self)@ == old(self)@.remove(symbol@),
            r == if old(self)@.contains_key(symbol@) {
                Some(old(self)@[symbol@])
            } else {
                None::<P>
            },
            final(self).symbol_order() == symbols_without(old(self).symbol_order(), symbol@),
    {
        proof {
            use_type_invariant(&*self);
        }
        let mut entries: Vec<(String, P)> = Vec::new();
        std::mem::swap(&mut entries, &mut self.entries);
        let r = remove_entry(&mut entries, symbol);
        self.entries = entries;
        r
    }

    /// The position of `symbol`, if the book holds one.
    pub fn get(&self, symbol: &str) -> (r: Option<&P>)
        ensures
            match r {
                Some(p) => self@.contains_key(symbol@) && *p == self@[symbol@],
                None => !self@.contains_key(symbol@),
            },
    {
        proof {
            use_type_invariant(self);
            lemma_entries_map(self.entries@);
        }
        match find_entry(&self.entries, symbol) {
            Some(i) => Some(&self.entries[i].1),
            None => None,
        }
    }

    /// Whether the book holds a position of `symbol`.
    pub fn contains(&self, symbol: &str) -> (r: bool)
        ensures
            r == self@.contains_key(symbol@),
    {
        proof {
            use_type_invariant(self);
            lemma_entries_map(self.entries@);
        }
        find_entry(&self.entries, symbol).is_some()
    }

    /// The number of open positions.
    pub fn len(&self) -> (r: usize)
        ensures
            r == self@.len(),
            r == self.symbol_order().len(),
    {
        proof {
            use_type_invariant(self);
            lemma_entries_map(self.entries@);
        }
        self.entries.len()
    }

    /// Whether another position fits under the limit of `max_positions`.
    pub fn has_capacity(&self, max_positions: usize) -> (r: bool)
        ensures
            r == (self@.len() < max_positions),
    {
        proof {
            use_type_invariant(self);
        }
        self.len() < max_positions
    }

    /// The symbols of the open positions, in the book's order.
    pub fn symbols(&self) -> (r: Vec<String>)
        ensures
            entry_symbols_view(r@) == self.symbol_order(),
            self.symbol_order().no_duplicates(),
            self.symbol_order().len() == self@.len(),
            forall|k: Seq<char>| #[trigger] self@.contains_key(k) <==> self.symbol_order().contains(k),
    {
        proof {
            use_type_invariant(self);
            lemma_entries_map(self.entries@);
            let o = self.symbol_order();
            assert forall|k: Seq<char>| #[trigger] self@.contains_key(k) <==> o.contains(k) by {
                if self@.contains_key(k) {
                    let j = choose|j: int| 0 <= j < self.entries@.len() && self.entries@[j].0@ == k;
                    assert(o[j] == k);
                }
                if o.contains(k) {
                    let j = choose|j: int| 0 <= j < o.len() && o[j] == k;
                    assert(self.entries@[j].0@ == k);
                }
            }
        }
        let mut r: Vec<String> = Vec::new();
        let mut i: usize = 0;
        while i < self.entries.len()
            invariant
                i <= self.entries@.len(),
                r@.len() == i,
                forall|j: int| 0 <= j < i ==> #[trigger] r@[j]@ == self.entries@[j].0@,
            decreases self.entries.len() - i,
        {
            let sym = self.entries[i].0.clone();
            assert(sym@ == self.entries@[i as int].0@);
            r.push(sym);
            i += 1;
        }
        assert(entry_symbols_view(r@) =~= entry_symbols(self.entries@));
        r
    }

    /// The open positions, in the book's order.
    pub fn positions(&self) -> (r: Vec<&P>)
        ensures
            r@.len() == self.symbol_order().len(),
            forall|i: int| 0 <= i < r@.len() ==> *r@[i] == self@[self.symbol_order()[i]],
    {
        proof {
            use_type_invariant(self);
            lemma_entries_map(self.entries@);
        }
        let mut r: Vec<&P> = Vec::new();
        let mut i: usize = 0;
        while i < self.entries.len()
            invariant
                i <= self.entries@.len(),
                r@.len() == i,
                forall|j: int| 0 <= j < i ==> *r@[j] == self.entries@[j].1,
            decreases self.entries.len() - i,
        {
            r.push(&self.entries[i].1);
            i += 1;
        }
        assert forall|j: int| 0 <= j < r@.len() implies *r@[j] == self@[self.symbol_order()[j]] by {
            assert(self.symbol_order()[j] == self.entries@[j].0@);
            assert(entries_map(self.entries@)[self.entries@[j].0@] == self.entries@[j].1);
        }
        r
    }
}

/// The symbols other than `k`, in order.
pub open spec fn symbols_without(s: Seq<Seq<char>>, k: Seq<char>) -> Seq<Seq<char>> {
    s.filter(|x: Seq<char>| x != k)
}

/// The texts of a list of symbols.
pub open spec fn entry_symbols_view(s: Seq<String>) -> Seq<Seq<char>> {
    Seq::new(s.len(), |i: int| s[i]@)
}

proof fn lemma_filter_absent(s: Seq<Seq<char>>, k: Seq<char>)
    requires
        !s.contains(k),
    ensures
        symbols_without(s, k) == s,
    decreases s.len(),
{
    reveal_with_fuel(Seq::filter, 1);
    if s.len() > 0 {
        assert(!s.drop_last().contains(k)) by {
            if s.drop_last().contains(k) {
                let j = choose|j: int| 0 <= j < s.drop_last().len() && s.drop_last()[j] == k;
                assert(s[j] == k);
            }
        }
        lemma_filter_absent(s.drop_last(), k);
        assert(s.last() != k) by {
            assert(s[s.len() - 1] == s.last());
        }
        assert(s.drop_last().push(s.last()) =~= s);
    }
}

proof fn lemma_filter_remove_at(s: Seq<Seq<char>>, i: int, k: Seq<char>)
    requires
        0 <= i < s.len(),
        s[i] == k,
        forall|j: int| 0 <= j < s.len() && j != i ==> s[j] != k,
    ensures
        symbols_without(s, k) == s.remove(i),
    decreases s.len(),
{
    reveal_with_fuel(Seq::filter, 1);
    let t = s.drop_last();
    if i == s.len() - 1 {
        assert(!t.contains(k)) by {
            if t.contains(k) {
                let j = choose|j: int| 0 <= j < t.len() && t[j] == k;
                assert(s[j] == k);
            }
        }
        lemma_filter_absent(t, k);
        assert(s.remove(i) =~= t);
    } else {
        assert forall|j: int| 0 <= j < t.len() && j != i implies t[j] != k by {
            assert(t[j] == s[j]);
        }
        lemma_filter_remove_at(t, i, k);
        assert(s.last() != k) by {
            assert(s[s.len() - 1] == s.last());
        }
        assert(s.remove(i) =~= t.remove(i).push(s.last()));
    }
}

proof fn lemma_entries_map_finite<P>(s: Seq<(String, P)>)
    ensures
        entries_map(s).dom().finite(),
    decreases s.len(),
{
    if s.len() > 0 {
        lemma_entries_map_finite(s.drop_last());
    }
}

/// Reading a book after `insert` recorded a position gives that position
/// back and leaves the other symbols as they were; after `remove` took the
/// symbol out again, it is gone and the others are as before the insert.
pub proof fn lemma_book_read_after_write<P>(
    before: PositionBook<P>,
    written: PositionBook<P>,
    removed: PositionBook<P>,
    symbol: Seq<char>,
    other: Seq<char>,
    position: P,
)
    requires
        symbol != other,
        written@ == before@.insert(symbol, position),
        removed@ == written@.remove(symbol),
    ensures
        written@.contains_key(symbol),
        written@[symbol] == position,
        written@.contains_key(other) == before@.contains_key(other),
        before@.contains_key(other) ==> written@[other] == before@[other],
        !removed@.contains_key(symbol),
        removed@.contains_key(other) == before@.contains_key(other),
        before@.contains_key(other) ==> removed@[other] == before@[other],
{
}

/// A position recorded only after `has_capacity(max_positions)` answered
/// yes never takes the book beyond its limit.
pub proof fn lemma_capacity_respected<P>(
    before: PositionBook<P>,
    after: PositionBook<P>,
    symbol: Seq<char>,
    position: P,
    max_positions: nat,
)
    requires
        before@.len() < max_positions,
        after@ == before@.insert(symbol, position),
    ensures
        after@.len() <= max_positions,
{
    lemma_entries_map_finite(before.entries@);
    assert(after@.dom() == before@.dom().insert(symbol));
}

} // verus!
