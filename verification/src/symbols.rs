//! A table from symbol names to 16-bit addresses, where a later definition of a name wins.
use vstd::prelude::*;

verus! {

/// A table of named addresses. Definitions are kept in order; looking a name up finds its
/// latest definition.
#[derive(Debug)]
pub struct SymbolTable {
    entries: Vec<(Vec<char>, u16)>,
}

/// The map that a list of definitions describes: later definitions override earlier ones.
pub open spec fn definitions_map(es: Seq<(Seq<char>, u16)>) -> Map<Seq<char>, u16>
    decreases es.len(),
{
    if es.len() == 0 {
        Map::empty()
    } else {
        definitions_map(es.drop_last()).insert(es.last().0, es.last().1)
    }
}

impl SymbolTable {
    /// The definitions, oldest first.
    pub closed spec fn definitions(&self) -> Seq<(Seq<char>, u16)> {
        self.entries@.map_values(|e: (Vec<char>, u16)| (e.0@, e.1))
    }
}

impl View for SymbolTable {
    type V = Map<Seq<char>, u16>;

    open spec fn view(&self) -> Map<Seq<char>, u16> {
        definitions_map(self.definitions())
    }
}

/// Whether `a[a_start..a_end]` holds the same characters as `b`.
pub fn chars_eq(a: &[char], a_start: usize, a_end: usize, b: &[char]) -> (r: bool)
    requires
        a_start <= a_end <= a@.len(),
    ensures
        r == (a@.subrange(a_start as int, a_end as int) == b@),
{
    if a_end - a_start != b.len() {
        return false;
    }
    let mut i: usize = 0;
    while i < b.len()
        invariant
            a_start <= a_end <= a@.len(),
            a_end - a_start == b@.len(),
            i <= b@.len(),
            forall|j: int| 0 <= j < i ==> a@[a_start + j] == b@[j],
        decreases b@.len() - i,
    {
        if a[a_start + i] != b[i] {
            assert(a@.subrange(a_start as int, a_end as int)[i as int] != b@[i as int]);
            return false;
        }
        i += 1;
    }
    assert(a@.subrange(a_start as int, a_end as int) =~= b@);
    true
}

impl SymbolTable {
    /// An empty table.
    pub fn new() -> (r: SymbolTable)
        ensures
            r@ == Map::<Seq<char>, u16>::empty(),
            r.definitions() == Seq::<(Seq<char>, u16)>::empty(),
    {
        let r = SymbolTable { entries: Vec::new() };
        assert(r.definitions() =~= Seq::<(Seq<char>, u16)>::empty());
        r
    }

    /// Defines `name` as `value`; an earlier definition of `name` is overridden.
    pub fn insert(&mut self, name: Vec<char>, value: u16)
        ensures
            final(self)@ == old(self)@.insert(name@, value),
            final(self).definitions() == old(self).definitions().push((name@, value)),
    {
        let ghost name_view = name@;
        self.entries.push((name, value));
        assert(self.definitions() =~= old(self).definitions().push((name_view, value)));
        assert(self.definitions().drop_last() =~= old(self).definitions());
    }

    /// The value of `key[start..end]`, if it is defined.
    pub fn get(&self, key: &[char], start: usize, end: usize) -> (r: Option<u16>)
        requires
            start <= end <= key@.len(),
        ensures
            r == (if self@.contains_key(key@.subrange(start as int, end as int)) {
                Some(self@[key@.subrange(start as int, end as int)])
            } else {
                None
            }),
    {
        let ghost k = key@.subrange(start as int, end as int);
        let ghost defs = self.definitions();
        let mut i: usize = self.entries.len();
        assert(defs.subrange(0, i as int) =~= defs);
        while i > 0
            invariant
                i <= self.entries@.len(),
                defs == self.definitions(),
                defs.len() == self.entries@.len(),
                k == key@.subrange(start as int, end as int),
                start <= end <= key@.len(),
                forall|j: int| i <= j < defs.len() ==> defs[j].0 != k,
                definitions_map(defs).contains_key(k) == definitions_map(
                    defs.subrange(0, i as int),
                ).contains_key(k),
                definitions_map(defs).contains_key(k) ==> definitions_map(defs)[k]
                    == definitions_map(defs.subrange(0, i as int))[k],
            decreases i,
        {
            let ghost prefix = defs.subrange(0, i as int);
            assert(prefix.drop_last() =~= defs.subrange(0, i - 1));
            assert(prefix.last() == defs[i - 1]);
            assert(defs[i - 1] == (self.entries@[i - 1].0@, self.entries@[i - 1].1));
            if chars_eq(key, start, end, self.entries[i - 1].0.as_slice()) {
                assert(defs[i - 1].0 == k);
                return Some(self.entries[i - 1].1);
            }
            i -= 1;
        }
        assert(defs.subrange(0, 0) =~= Seq::<(Seq<char>, u16)>::empty());
        None
    }
}

} // verus!
