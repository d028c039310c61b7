//! An ordered collection of key/value items with field-level edits.
//!
//! The collection is modelled as a sequence of `(key, value)` pairs of
//! character sequences. Every operation states the sequence it leaves behind.
//! A key is meant to occur once: no operation brings a key in a second time,
//! so a collection that starts with unique keys keeps them.

use vstd::prelude::*;

verus! {

/// The model of one item: its key and its value.
pub type Pair = (Seq<char>, Seq<char>);

/// One row of the collection: a key that identifies it and an editable value.
#[derive(Clone, Debug)]
pub struct Item {
    pub key: String,
    pub value: String,
}

impl View for Item {
    type V = Pair;

    open spec fn view(&self) -> Pair {
        (self.key@, self.value@)
    }
}

/// The models of a run of items, in order.
pub open spec fn pairs_of(items: Seq<Item>) -> Seq<Pair> {
    Seq::new(items.len(), |i: int| items[i]@)
}

/// Some row carries `key`.
pub open spec fn has_key(rows: Seq<Pair>, key: Seq<char>) -> bool {
    exists|i: int| 0 <= i < rows.len() && (#[trigger] rows[i]).0 == key
}

/// Row `at` is the first one that carries `key`.
pub open spec fn is_first_with_key(rows: Seq<Pair>, key: Seq<char>, at: int) -> bool {
    &&& 0 <= at < rows.len()
    &&& rows[at].0 == key
    &&& forall|j: int| 0 <= j < at ==> (#[trigger] rows[j]).0 != key
}

/// No two rows carry the same key.
pub open spec fn keys_unique(rows: Seq<Pair>) -> bool {
    forall|i: int, j: int|
        0 <= i < j < rows.len() ==> (#[trigger] rows[i]).0 != (#[trigger] rows[j]).0
}

impl Item {
    /// Builds an item from its key and its value.
    pub fn new(key: String, value: String) -> (item: Item)
        ensures
            item@ == (key@, value@),
    {
        Item { key, value }
    }
}

/// The whole configuration: the ordered rows of the schema.
#[derive(Clone, Debug)]
pub struct Config {
    pub schema: Vec<Item>,
}

impl View for Config {
    type V = Seq<Pair>;

    open spec fn view(&self) -> Seq<Pair> {
        pairs_of(self.schema@)
    }
}

impl Config {
    /// A configuration that holds `schema`, in the order given.
    pub fn new(schema: Vec<Item>) -> (config: Config)
        ensures
            config@ == pairs_of(schema@),
    {
        Config { schema }
    }

    /// The number of rows.
    pub fn len(&self) -> (n: usize)
        ensures
            n == self@.len(),
    {
        self.schema.len()
    }

    /// The index of the first row that carries `key`, if any row does.
    pub fn position_of(&self, key: &str) -> (at: Option<usize>)
        ensures
            match at {
                Some(i) => is_first_with_key(self@, key@, i as int),
                None => !has_key(self@, key@),
            },
    {
        let wanted: String = key.to_owned();
        let mut i: usize = 0;
        while i < self.schema.len()
            invariant
                i <= self.schema.len(),
                wanted@ == key@,
                forall|j: int| 0 <= j < i ==> (#[trigger] self@[j]).0 != key@,
            decreases self.schema.len() - i,
        {
            if self.schema[i].key == wanted {
                return Some(i);
            }
            i += 1;
        }
        None
    }

    /// Replaces the whole collection by `items`, where no key occurs twice
    /// among them, and says whether it did. Items with a repeated key are
    /// refused, and the collection stays as it was.
    pub fn replace(&mut self, items: Vec<Item>) -> (accepted: bool)
        ensures
            accepted == keys_unique(pairs_of(items@)),
            accepted ==> final(self)@ == pairs_of(items@),
            !accepted ==> final(self)@ == old(self)@,
            keys_unique(old(self)@) ==> keys_unique(final(self)@),
    {
        if unique_keys_in(&items) {
            self.schema = items;
            true
        } else {
            false
        }
    }

    /// Takes the row at `index` out and closes the gap; the rows behind it
    /// move up by one and keep their order.
    pub fn remove(&mut self, index: usize) -> (item: Item)
        requires
            index < old(self)@.len(),
        ensures
            item@ == old(self)@[index as int],
            final(self)@ == old(self)@.remove(index as int),
            keys_unique(old(self)@) ==> keys_unique(final(self)@),
    {
        let item = self.schema.remove(index);
        assert(self@ =~= old(self)@.remove(index as int));
        proof {
            if keys_unique(old(self)@) {
                remove_keeps_keys_unique(old(self)@, index as int);
            }
        }
        item
    }

    /// Empties the collection.
    pub fn clear(&mut self)
        ensures
            final(self)@ == Seq::<Pair>::empty(),
            keys_unique(final(self)@),
    {
        self.schema = Vec::new();
        assert(self@ =~= Seq::<Pair>::empty());
    }

    /// Writes `text` into the value of the first row that carries `key` and
    /// says which row that was. The row keeps its key and its place, and every
    /// other row stays as it is. Without such a row nothing changes.
    pub fn set_value(&mut self, key: &str, text: String) -> (at: Option<usize>)
        ensures
            match at {
                Some(i) => {
                    &&& is_first_with_key(old(self)@, key@, i as int)
                    &&& final(self)@ == old(self)@.update(i as int, (key@, text@))
                },
                None => !has_key(old(self)@, key@) && final(self)@ == old(self)@,
            },
            keys_unique(old(self)@) ==> keys_unique(final(self)@),
    {
        let at = self.position_of(key);
        if let Some(i) = at {
            let row = Item { key: self.schema[i].key.clone(), value: text };
            self.schema.set(i, row);
            assert(self@ =~= old(self)@.update(i as int, (key@, text@)));
            proof {
                if keys_unique(old(self)@) {
                    edit_keeps_keys_unique(old(self)@, i as int, text@);
                }
            }
        }
        at
    }

    /// Whether no key occurs in two rows.
    pub fn has_unique_keys(&self) -> (unique: bool)
        ensures
            unique == keys_unique(self@),
    {
        unique_keys_in(&self.schema)
    }
}

/// Whether no key occurs in two of `items`.
pub fn unique_keys_in(items: &Vec<Item>) -> (unique: bool)
    ensures
        unique == keys_unique(pairs_of(items@)),
{
    let ghost rows = pairs_of(items@);
    let mut j: usize = 0;
    while j < items.len()
        invariant
            j <= items.len(),
            rows == pairs_of(items@),
            forall|a: int, b: int|
                0 <= a < b < j ==> (#[trigger] rows[a]).0 != (#[trigger] rows[b]).0,
        decreases items.len() - j,
    {
        let mut i: usize = 0;
        while i < j
            invariant
                i <= j < items.len(),
                rows == pairs_of(items@),
                forall|a: int| 0 <= a < i ==> (#[trigger] rows[a]).0 != rows[j as int].0,
            decreases j - i,
        {
            if items[i].key == items[j].key {
                assert(rows[i as int].0 == rows[j as int].0);
                return false;
            }
            i += 1;
        }
        j += 1;
    }
    true
}

/// Taking a row out of a collection with unique keys leaves the keys unique.
pub proof fn remove_keeps_keys_unique(rows: Seq<Pair>, index: int)
    requires
        keys_unique(rows),
        0 <= index < rows.len(),
    ensures
        keys_unique(rows.remove(index)),
{
    let rest = rows.remove(index);
    assert forall|i: int, j: int| 0 <= i < j < rest.len() implies (#[trigger] rest[i]).0 != (
    #[trigger] rest[j]).0 by {
        let a = if i < index { i } else { i + 1 };
        let b = if j < index { j } else { j + 1 };
        assert(rest[i] == rows[a]);
        assert(rest[j] == rows[b]);
    }
}

/// Writing a value into a row, under the key that the row already has, leaves
/// the keys as they were: unique keys stay unique.
pub proof fn edit_keeps_keys_unique(rows: Seq<Pair>, index: int, text: Seq<char>)
    requires
        keys_unique(rows),
        0 <= index < rows.len(),
    ensures
        keys_unique(rows.update(index, (rows[index].0, text))),
{
    let edited = rows.update(index, (rows[index].0, text));
    assert forall|i: int, j: int| 0 <= i < j < edited.len() implies (#[trigger] edited[i]).0 != (
    #[trigger] edited[j]).0 by {
        assert(edited[i].0 == rows[i].0);
        assert(edited[j].0 == rows[j].0);
    }
}

/// An edit through a key touches one row only: the row found keeps its key
/// and takes the new text, and every other row is what it was. The number of
/// rows does not change.
pub proof fn edit_touches_one_row(rows: Seq<Pair>, key: Seq<char>, at: int, text: Seq<char>)
    requires
        is_first_with_key(rows, key, at),
    ensures
        rows.update(at, (key, text)).len() == rows.len(),
        rows.update(at, (key, text))[at] == (key, text),
        rows.update(at, (key, text))[at].0 == rows[at].0,
        forall|j: int|
            0 <= j < rows.len() && j != at ==> #[trigger] rows.update(at, (key, text))[j]
                == rows[j],
{
}

/// Taking the only row out of a collection of one leaves it empty.
pub proof fn remove_only_row_leaves_none(rows: Seq<Pair>)
    requires
        rows.len() == 1,
    ensures
        rows.remove(0) == Seq::<Pair>::empty(),
{
    assert(rows.remove(0) =~= Seq::<Pair>::empty());
}

} // verus!
