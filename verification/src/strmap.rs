//! An ordered string map that keeps every value inserted under a key.

use vstd::prelude::*;

verus! {

/// The values stored under `key`, in the order in which they were inserted.
pub open spec fn values_of(entries: Seq<(Seq<char>, Seq<char>)>, key: Seq<char>) -> Seq<Seq<char>> {
    entries.filter(|e: (Seq<char>, Seq<char>)| e.0 == key).map_values(
        |e: (Seq<char>, Seq<char>)| e.1,
    )
}

/// The view of one stored pair.
pub open spec fn pair_view(e: (String, String)) -> (Seq<char>, Seq<char>) {
    (e.0@, e.1@)
}

/// The views of a sequence of strings.
pub open spec fn text_views(texts: Seq<String>) -> Seq<Seq<char>> {
    texts.map_values(|t: String| t@)
}

/// Appending a pair appends its value to the values of its key and leaves
/// the values of every other key as they were.
pub proof fn lemma_values_of_push(
    entries: Seq<(Seq<char>, Seq<char>)>,
    key: Seq<char>,
    value: Seq<char>,
    probe: Seq<char>,
)
    ensures
        values_of(entries.push((key, value)), probe) == if probe == key {
            values_of(entries, probe).push(value)
        } else {
            values_of(entries, probe)
        },
{
    let pred = |e: (Seq<char>, Seq<char>)| e.0 == probe;
    let longer = entries.push((key, value));
    reveal_with_fuel(Seq::filter, 2);
    assert(longer.drop_last() =~= entries);
    assert(longer.last() == (key, value));
    if probe == key {
        assert(longer.filter(pred) == entries.filter(pred).push((key, value)));
        assert(values_of(longer, probe) =~= values_of(entries, probe).push(value));
    } else {
        assert(longer.filter(pred) == entries.filter(pred));
    }
}

/// Two values appended under one key come out last, in the order in which
/// they went in, after the values that the key had before.
pub proof fn lemma_repeated_key_keeps_order(
    entries: Seq<(Seq<char>, Seq<char>)>,
    key: Seq<char>,
    first: Seq<char>,
    second: Seq<char>,
)
    ensures
        values_of(entries.push((key, first)).push((key, second)), key) == values_of(
            entries,
            key,
        ).push(first).push(second),
{
    lemma_values_of_push(entries, key, first, key);
    lemma_values_of_push(entries.push((key, first)), key, second, key);
}

/// The values of a key among the first entries are the first values of that
/// key among all entries.
pub proof fn lemma_values_of_prefix(entries: Seq<(Seq<char>, Seq<char>)>, key: Seq<char>, n: int)
    requires
        0 <= n <= entries.len(),
    ensures
        values_of(entries.take(n), key).len() <= values_of(entries, key).len(),
        forall|i: int|
            0 <= i < values_of(entries.take(n), key).len() ==> values_of(entries, key)[i]
                == #[trigger] values_of(entries.take(n), key)[i],
{
    let pred = |e: (Seq<char>, Seq<char>)| e.0 == key;
    assert(entries =~= entries.take(n) + entries.skip(n));
    Seq::filter_distributes_over_add(entries.take(n), entries.skip(n), pred);
    assert(entries.filter(pred) == entries.take(n).filter(pred) + entries.skip(n).filter(pred));
}

/// String pairs in insertion order; a key may occur any number of times.
#[derive(Debug, Clone)]
pub struct StrMap {
    pairs: Vec<(String, String)>,
}

impl View for StrMap {
    type V = Seq<(Seq<char>, Seq<char>)>;

    closed spec fn view(&self) -> Seq<(Seq<char>, Seq<char>)> {
        self.pairs@.map_values(|e: (String, String)| pair_view(e))
    }
}

impl StrMap {
    /// A map without entries.
    pub fn new() -> (m: StrMap)
        ensures
            m@ == Seq::<(Seq<char>, Seq<char>)>::empty(),
    {
        let m = StrMap { pairs: Vec::new() };
        assert(m@ =~= Seq::<(Seq<char>, Seq<char>)>::empty());
        m
    }

    /// The number of stored pairs.
    pub fn len(&self) -> (n: usize)
        ensures
            n == self@.len(),
    {
        self.pairs.len()
    }

    /// Whether nothing is stored.
    pub fn is_empty(&self) -> (b: bool)
        ensures
            b == (self@.len() == 0),
    {
        self.pairs.len() == 0
    }

    /// Appends a pair; nothing stored before is changed or removed.
    pub fn insert(&mut self, key: String, value: String)
        ensures
            final(self)@ == old(self)@.push((key@, value@)),
    {
        self.pairs.push((key, value));
        assert(self@ =~= old(self)@.push((key@, value@)));
    }

    /// The pair at position `index` of the insertion order, if there are
    /// that many.
    pub fn entry(&self, index: usize) -> (e: Option<(&str, &str)>)
        ensures
            match e {
                Some(pair) => index < self@.len() && (pair.0@, pair.1@) == self@[index as int],
                None => index >= self@.len(),
            },
    {
        if index < self.pairs.len() {
            let pair = &self.pairs[index];
            Some((pair.0.as_str(), pair.1.as_str()))
        } else {
            None
        }
    }

    /// Every value stored under `key`, in insertion order.
    pub fn get_all(&self, key: &str) -> (values: Vec<String>)
        ensures
            text_views(values@) == values_of(self@, key@),
    {
        let wanted = key.to_owned();
        let mut values: Vec<String> = Vec::new();
        let mut i: usize = 0;
        assert(self@.take(0) =~= Seq::<(Seq<char>, Seq<char>)>::empty());
        assert(text_views(values@) =~= values_of(self@.take(0), key@)) by {
            reveal_with_fuel(Seq::filter, 1);
        }
        while i < self.pairs.len()
            invariant
                i <= self.pairs.len(),
                self@.len() == self.pairs.len(),
                wanted@ == key@,
                text_views(values@) == values_of(self@.take(i as int), key@),
            decreases self.pairs.len() - i,
        {
            let pair = &self.pairs[i];
            proof {
                assert(self@.take(i + 1) =~= self@.take(i as int).push(self@[i as int]));
                lemma_values_of_push(self@.take(i as int), pair.0@, pair.1@, key@);
            }
            if pair.0 == wanted {
                let ghost before = values@;
                values.push(pair.1.clone());
                assert(text_views(values@) =~= text_views(before).push(pair.1@));
            }
            i += 1;
        }
        assert(self@.take(i as int) =~= self@);
        values
    }

    /// The first value stored under `key`, if there is one.
    pub fn get_first(&self, key: &str) -> (first: Option<&str>)
        ensures
            match first {
                Some(value) => values_of(self@, key@).len() > 0 && values_of(self@, key@)[0]
                    == value@,
                None => values_of(self@, key@).len() == 0,
            },
    {
        let wanted = key.to_owned();
        let mut i: usize = 0;
        assert(self@.take(0) =~= Seq::<(Seq<char>, Seq<char>)>::empty());
        assert(values_of(self@.take(0), key@).len() == 0) by {
            reveal_with_fuel(Seq::filter, 1);
        }
        while i < self.pairs.len()
            invariant
                i <= self.pairs.len(),
                self@.len() == self.pairs.len(),
                wanted@ == key@,
                values_of(self@.take(i as int), key@).len() == 0,
            decreases self.pairs.len() - i,
        {
            let pair = &self.pairs[i];
            proof {
                assert(self@.take(i + 1) =~= self@.take(i as int).push(self@[i as int]));
                lemma_values_of_push(self@.take(i as int), pair.0@, pair.1@, key@);
            }
            if pair.0 == wanted {
                proof {
                    lemma_values_of_prefix(self@, key@, i + 1);
                    assert(values_of(self@.take(i + 1), key@)[0] == pair.1@);
                }
                return Some(pair.1.as_str());
            }
            i += 1;
        }
        assert(self@.take(i as int) =~= self@);
        None
    }
}

impl PartialEq for StrMap {
    /// Two maps are equal when they hold the same pairs in the same order.
    fn eq(&self, other: &StrMap) -> (b: bool) {
        if self.pairs.len() != other.pairs.len() {
            assert(self@.len() != other@.len());
            return false;
        }
        let mut i: usize = 0;
        while i < self.pairs.len()
            invariant
                i <= self.pairs.len(),
                self.pairs.len() == other.pairs.len(),
                self@.len() == self.pairs.len(),
                other@.len() == other.pairs.len(),
                forall|j: int| 0 <= j < i ==> self@[j] == other@[j],
            decreases self.pairs.len() - i,
        {
            let mine = &self.pairs[i];
            let theirs = &other.pairs[i];
            if !(mine.0 == theirs.0 && mine.1 == theirs.1) {
                assert(self@[i as int] != other@[i as int]);
                return false;
            }
            i += 1;
        }
        assert(self@ =~= other@);
        true
    }
}

impl vstd::std_specs::cmp::PartialEqSpecImpl for StrMap {
    open spec fn obeys_eq_spec() -> bool {
        true
    }

    open spec fn eq_spec(&self, other: &StrMap) -> bool {
        self@ == other@
    }
}

impl Default for StrMap {
    fn default() -> (m: StrMap)
        ensures
            m@.len() == 0,
    {
        StrMap::new()
    }
}

} // verus!
