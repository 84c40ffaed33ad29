//! The named lists, held in memory.

use vstd::prelude::*;
use crate::error::StoreError;
use crate::text::texts;

verus! {

/// A list as it is stored: its name and its items in the order they were
/// added.
pub type Entry = (String, Vec<String>);

/// Whether no two entries share a name.
pub open spec fn distinct_names(entries: Seq<Entry>) -> bool {
    forall|i: int, j: int|
        0 <= i < j < entries.len() ==> (#[trigger] entries[i]).0@ != (#[trigger] entries[j]).0@
}

/// Whether some entry has the name.
pub open spec fn has_name(entries: Seq<Entry>, name: Seq<char>) -> bool {
    exists|i: int| 0 <= i < entries.len() && (#[trigger] entries[i]).0@ == name
}

/// The place of an entry with the name.
pub open spec fn place_of(entries: Seq<Entry>, name: Seq<char>) -> int {
    choose|i: int| 0 <= i < entries.len() && (#[trigger] entries[i]).0@ == name
}

/// The mapping that the entries stand for: each name among them is taken to
/// the items stored with it.
pub open spec fn lists_of(entries: Seq<Entry>) -> Map<Seq<char>, Seq<Seq<char>>> {
    Map::new(
        |name: Seq<char>| has_name(entries, name),
        |name: Seq<char>| texts(entries[place_of(entries, name)].1@),
    )
}

/// With distinct names, the entry at a place is what its name is mapped to.
proof fn lemma_entry_listed(entries: Seq<Entry>, i: int)
    requires
        distinct_names(entries),
        0 <= i < entries.len(),
    ensures
        lists_of(entries).dom().contains(entries[i].0@),
        lists_of(entries)[entries[i].0@] == texts(entries[i].1@),
{
    let name = entries[i].0@;
    assert(has_name(entries, name));
    let j = place_of(entries, name);
    assert(0 <= j < entries.len() && entries[j].0@ == name);
    assert(j == i);
}

/// Putting other items under a name that an entry already has changes what
/// that name is mapped to and nothing else.
proof fn lemma_entry_replaced(entries: Seq<Entry>, i: int, entry: Entry)
    requires
        distinct_names(entries),
        0 <= i < entries.len(),
        entry.0@ == entries[i].0@,
    ensures
        distinct_names(entries.update(i, entry)),
        lists_of(entries.update(i, entry)) == lists_of(entries).insert(
            entry.0@,
            texts(entry.1@),
        ),
{
    let after = entries.update(i, entry);
    let target = lists_of(entries).insert(entry.0@, texts(entry.1@));
    assert forall|a: int, b: int| 0 <= a < b < after.len() implies (#[trigger] after[a]).0@
        != (#[trigger] after[b]).0@ by {
        assert(after[a].0@ == entries[a].0@);
        assert(after[b].0@ == entries[b].0@);
    }
    assert forall|name: Seq<char>|
        lists_of(after).dom().contains(name) == target.dom().contains(name) by {
        if has_name(after, name) {
            let k = place_of(after, name);
            assert(entries[k].0@ == name);
        }
        if has_name(entries, name) {
            let k = place_of(entries, name);
            assert(after[k].0@ == name);
        }
        if name == entry.0@ {
            assert(after[i].0@ == name);
        }
    }
    assert forall|name: Seq<char>| lists_of(after).dom().contains(name) implies lists_of(after)[name]
        == target[name] by {
        let k = place_of(after, name);
        lemma_entry_listed(after, k);
        if k != i {
            assert(entries[k].0@ == name);
            lemma_entry_listed(entries, k);
        }
    }
    assert(lists_of(after) =~= target);
}

/// An entry under a name that no entry has adds that name and changes
/// nothing else.
proof fn lemma_entry_added(entries: Seq<Entry>, entry: Entry)
    requires
        distinct_names(entries),
        !has_name(entries, entry.0@),
    ensures
        distinct_names(entries.push(entry)),
        lists_of(entries.push(entry)) == lists_of(entries).insert(entry.0@, texts(entry.1@)),
{
    let after = entries.push(entry);
    let target = lists_of(entries).insert(entry.0@, texts(entry.1@));
    let last = entries.len() as int;
    assert forall|a: int, b: int| 0 <= a < b < after.len() implies (#[trigger] after[a]).0@
        != (#[trigger] after[b]).0@ by {
        assert(after[a] == entries[a]);
        if b < last {
            assert(after[b] == entries[b]);
        }
    }
    assert forall|name: Seq<char>|
        lists_of(after).dom().contains(name) == target.dom().contains(name) by {
        if has_name(after, name) {
            let k = place_of(after, name);
            if k < last {
                assert(entries[k].0@ == name);
            }
        }
        if has_name(entries, name) {
            let k = place_of(entries, name);
            assert(after[k].0@ == name);
        }
        if name == entry.0@ {
            assert(after[last].0@ == name);
        }
    }
    assert forall|name: Seq<char>| lists_of(after).dom().contains(name) implies lists_of(after)[name]
        == target[name] by {
        let k = place_of(after, name);
        lemma_entry_listed(after, k);
        if k < last {
            assert(entries[k].0@ == name);
            lemma_entry_listed(entries, k);
        }
    }
    assert(lists_of(after) =~= target);
}

/// Taking an entry out takes its name out and changes nothing else.
proof fn lemma_entry_removed(entries: Seq<Entry>, i: int)
    requires
        distinct_names(entries),
        0 <= i < entries.len(),
    ensures
        distinct_names(entries.remove(i)),
        lists_of(entries.remove(i)) == lists_of(entries).remove(entries[i].0@),
{
    let after = entries.remove(i);
    let gone = entries[i].0@;
    let target = lists_of(entries).remove(gone);
    assert forall|a: int, b: int| 0 <= a < b < after.len() implies (#[trigger] after[a]).0@
        != (#[trigger] after[b]).0@ by {
        let before_a = if a < i { a } else { a + 1 };
        let before_b = if b < i { b } else { b + 1 };
        assert(after[a] == entries[before_a]);
        assert(after[b] == entries[before_b]);
    }
    assert forall|name: Seq<char>|
        lists_of(after).dom().contains(name) == target.dom().contains(name) by {
        if has_name(after, name) {
            let k = place_of(after, name);
            let before = if k < i { k } else { k + 1 };
            assert(entries[before].0@ == name);
            assert(entries[before].0@ != entries[i].0@);
        }
        if has_name(entries, name) && name != gone {
            let k = place_of(entries, name);
            let then = if k < i { k } else { k - 1 };
            assert(after[then].0@ == name);
        }
    }
    assert forall|name: Seq<char>| lists_of(after).dom().contains(name) implies lists_of(after)[name]
        == target[name] by {
        let k = place_of(after, name);
        let before = if k < i { k } else { k + 1 };
        lemma_entry_listed(after, k);
        assert(after[k] == entries[before]);
        lemma_entry_listed(entries, before);
    }
    assert(lists_of(after) =~= target);
}

/// Taking out the first item that equals `item` is taking out the item at
/// the first place where it stands.
proof fn lemma_first_removed(items: Seq<Seq<char>>, item: Seq<char>, j: int)
    requires
        0 <= j < items.len(),
        items[j] == item,
        forall|k: int| 0 <= k < j ==> items[k] != item,
    ensures
        items.remove_value(item) == items.remove(j),
{
    items.index_of_first_ensures(item);
    assert(items.contains(item));
}

/// Where no item equals `item`, taking it out changes nothing.
proof fn lemma_none_removed(items: Seq<Seq<char>>, item: Seq<char>)
    requires
        forall|k: int| 0 <= k < items.len() ==> items[k] != item,
    ensures
        items.remove_value(item) == items,
{
    items.index_of_first_ensures(item);
}

/// A collection of named lists: a mapping from the name of each list to its
/// items. No name occurs twice.
#[derive(Debug)]
pub struct ListCollection {
    entries: Vec<Entry>,
}

impl View for ListCollection {
    type V = Map<Seq<char>, Seq<Seq<char>>>;

    closed spec fn view(&self) -> Map<Seq<char>, Seq<Seq<char>>> {
        lists_of(self.entries@)
    }
}

impl ListCollection {
    #[verifier::type_invariant]
    spec fn well_formed(&self) -> bool {
        distinct_names(self.entries@)
    }

    /// A collection without lists.
    pub fn new() -> (r: Self)
        ensures
            r@ == Map::<Seq<char>, Seq<Seq<char>>>::empty(),
    {
        let r = ListCollection { entries: Vec::new() };
        assert(r@ =~= Map::<Seq<char>, Seq<Seq<char>>>::empty());
        r
    }

    /// The collection that holds the given entries.
    pub(crate) fn from_entries(entries: Vec<Entry>) -> (r: Self)
        requires
            distinct_names(entries@),
        ensures
            r@ == lists_of(entries@),
    {
        ListCollection { entries }
    }

    /// The entries of the collection, in no particular order.
    pub(crate) fn entries(&self) -> (entries: &Vec<Entry>)
        ensures
            distinct_names(entries@),
            lists_of(entries@) == self@,
    {
        proof {
            use_type_invariant(self);
        }
        &self.entries
    }

    /// Moves the entries out and leaves the collection empty.
    fn take_entries(&mut self) -> (entries: Vec<Entry>)
        ensures
            entries@ == old(self).entries@,
            distinct_names(entries@),
            final(self).entries@.len() == 0,
    {
        proof {
            use_type_invariant(&*self);
        }
        let mut entries: Vec<Entry> = Vec::new();
        core::mem::swap(&mut self.entries, &mut entries);
        entries
    }

    /// The items of the list with this name; `None` where no list has it.
    pub fn show_list(&self, name: &str) -> (r: Option<&Vec<String>>)
        ensures
            match r {
                Some(items) => self@.dom().contains(name@) && texts(items@) == self@[name@],
                None => !self@.dom().contains(name@),
            },
    {
        proof {
            use_type_invariant(self);
        }
        let key: String = name.to_owned();
        match find(&self.entries, &key) {
            Some(i) => {
                proof {
                    lemma_entry_listed(self.entries@, i as int);
                }
                Some(&self.entries[i].1)
            },
            None => None,
        }
    }

    /// Creates the list, or empties it where it exists.
    pub fn add_list(&mut self, name: String)
        ensures
            final(self)@ == old(self)@.insert(name@, Seq::<Seq<char>>::empty()),
    {
        let mut entries = self.take_entries();
        let ghost before = entries@;
        match find(&entries, &name) {
            Some(i) => {
                entries[i].1 = Vec::new();
                proof {
                    let entry = entries@[i as int];
                    assert(entries@ =~= before.update(i as int, entry));
                    assert(texts(entry.1@) =~= Seq::<Seq<char>>::empty());
                    lemma_entry_replaced(before, i as int, entry);
                }
            },
            None => {
                let entry: Entry = (name, Vec::new());
                proof {
                    assert(texts(entry.1@) =~= Seq::<Seq<char>>::empty());
                    lemma_entry_added(before, entry);
                }
                entries.push(entry);
            },
        }
        self.entries = entries;
    }

    /// Deletes the list. Where no list has the name, nothing changes.
    pub fn remove_list(&mut self, name: &str)
        ensures
            final(self)@ == old(self)@.remove(name@),
    {
        let mut entries = self.take_entries();
        let ghost before = entries@;
        let key: String = name.to_owned();
        match find(&entries, &key) {
            Some(i) => {
                proof {
                    lemma_entry_removed(before, i as int);
                }
                let _ = entries.remove(i);
            },
            None => {
                assert(lists_of(before).remove(name@) =~= lists_of(before));
            },
        }
        self.entries = entries;
    }

    /// Appends the item to the list. The list must exist: where it does not,
    /// nothing changes and the error names the list.
    pub fn add_item_to_list(&mut self, name: &str, item: String) -> (r: Result<(), StoreError>)
        ensures
            old(self)@.dom().contains(name@) ==> r is Ok && final(self)@ == old(self)@.insert(
                name@,
                old(self)@[name@].push(item@),
            ),
            !old(self)@.dom().contains(name@) ==> final(self)@ == old(self)@
                && (r matches Err(StoreError::NotFound(missing)) && missing@ == name@),
    {
        let mut entries = self.take_entries();
        let ghost before = entries@;
        let key: String = name.to_owned();
        let r = match find(&entries, &key) {
            Some(i) => {
                entries[i].1.push(item);
                proof {
                    let entry = entries@[i as int];
                    assert(entries@ =~= before.update(i as int, entry));
                    assert(texts(entry.1@) =~= texts(before[i as int].1@).push(item@));
                    lemma_entry_listed(before, i as int);
                    lemma_entry_replaced(before, i as int, entry);
                }
                Ok(())
            },
            None => Err(StoreError::NotFound(key)),
        };
        self.entries = entries;
        r
    }

    /// Takes the first item that equals `item` out of the list; where the
    /// list holds no such item, nothing changes. The list must exist: where
    /// it does not, nothing changes and the error names the list.
    pub fn remove_item_from_list(&mut self, name: &str, item: &str) -> (r: Result<(), StoreError>)
        ensures
            old(self)@.dom().contains(name@) ==> r is Ok && final(self)@ == old(self)@.insert(
                name@,
                old(self)@[name@].remove_value(item@),
            ),
            !old(self)@.dom().contains(name@) ==> final(self)@ == old(self)@
                && (r matches Err(StoreError::NotFound(missing)) && missing@ == name@),
    {
        let mut entries = self.take_entries();
        let ghost before = entries@;
        let key: String = name.to_owned();
        let wanted: String = item.to_owned();
        let r = match find(&entries, &key) {
            Some(i) => {
                proof {
                    lemma_entry_listed(before, i as int);
                }
                match first_place(&entries[i].1, &wanted) {
                    Some(j) => {
                        let _ = entries[i].1.remove(j);
                        proof {
                            let entry = entries@[i as int];
                            let items = texts(before[i as int].1@);
                            assert(entries@ =~= before.update(i as int, entry));
                            assert(texts(entry.1@) =~= items.remove(j as int));
                            lemma_first_removed(items, item@, j as int);
                            lemma_entry_replaced(before, i as int, entry);
                        }
                    },
                    None => {
                        proof {
                            let items = texts(before[i as int].1@);
                            lemma_none_removed(items, item@);
                            assert(lists_of(before).insert(name@, items) =~= lists_of(before));
                        }
                    },
                }
                Ok(())
            },
            None => Err(StoreError::NotFound(key)),
        };
        self.entries = entries;
        r
    }
}

impl PartialEq for ListCollection {
    /// Two collections are equal where they hold the same lists, whatever
    /// the order in which they were added.
    fn eq(&self, other: &Self) -> (r: bool) {
        let left = self.entries();
        let right = other.entries();
        let r = covers(left, right) && covers(right, left);
        proof {
            if r {
                assert forall|name: Seq<char>|
                    self@.dom().contains(name) == other@.dom().contains(name) by {}
                assert(self@ =~= other@);
            }
        }
        r
    }
}

impl vstd::std_specs::cmp::PartialEqSpecImpl for ListCollection {
    open spec fn obeys_eq_spec() -> bool {
        true
    }

    open spec fn eq_spec(&self, other: &Self) -> bool {
        self@ == other@
    }
}

impl Eq for ListCollection {}

/// Whether every list of `left` is a list of `right`, with the same items.
fn covers(left: &Vec<Entry>, right: &Vec<Entry>) -> (r: bool)
    requires
        distinct_names(left@),
        distinct_names(right@),
    ensures
        r == lists_of(left@).submap_of(lists_of(right@)),
{
    let mut i: usize = 0;
    while i < left.len()
        invariant
            i <= left@.len(),
            distinct_names(left@),
            distinct_names(right@),
            forall|k: int|
                0 <= k < i ==> lists_of(right@).dom().contains((#[trigger] left@[k]).0@)
                    && lists_of(right@)[left@[k].0@] == texts(left@[k].1@),
        decreases left@.len() - i,
    {
        proof {
            lemma_entry_listed(left@, i as int);
        }
        match find(right, &left[i].0) {
            Some(j) => {
                proof {
                    lemma_entry_listed(right@, j as int);
                }
                if !same_items(&left[i].1, &right[j].1) {
                    return false;
                }
            },
            None => {
                assert(!lists_of(right@).dom().contains(left@[i as int].0@));
                return false;
            },
        }
        i = i + 1;
    }
    proof {
        assert forall|name: Seq<char>| lists_of(left@).dom().contains(name) implies lists_of(right@)
            .dom().contains(name) && lists_of(left@)[name] == lists_of(right@)[name] by {
            let k = place_of(left@, name);
            lemma_entry_listed(left@, k);
        }
    }
    true
}

/// Whether two lists hold the same items in the same order.
fn same_items(left: &Vec<String>, right: &Vec<String>) -> (r: bool)
    ensures
        r == (texts(left@) == texts(right@)),
{
    if left.len() != right.len() {
        assert(texts(left@).len() != texts(right@).len());
        return false;
    }
    let mut i: usize = 0;
    while i < left.len()
        invariant
            i <= left@.len(),
            left@.len() == right@.len(),
            forall|k: int| 0 <= k < i ==> (#[trigger] left@[k])@ == right@[k]@,
        decreases left@.len() - i,
    {
        if left[i] != right[i] {
            assert(texts(left@)[i as int] != texts(right@)[i as int]);
            return false;
        }
        i = i + 1;
    }
    assert(texts(left@) =~= texts(right@));
    true
}

/// The place of the entry with this name, if there is one.
fn find(entries: &Vec<Entry>, name: &String) -> (r: Option<usize>)
    ensures
        match r {
            Some(i) => i < entries@.len() && entries@[i as int].0@ == name@,
            None => !has_name(entries@, name@),
        },
{
    let mut i: usize = 0;
    while i < entries.len()
        invariant
            i <= entries@.len(),
            forall|k: int| 0 <= k < i ==> (#[trigger] entries@[k]).0@ != name@,
        decreases entries@.len() - i,
    {
        if entries[i].0 == *name {
            return Some(i);
        }
        i = i + 1;
    }
    None
}

/// The first place at which `items` holds `item`, if it holds it at all.
fn first_place(items: &Vec<String>, item: &String) -> (r: Option<usize>)
    ensures
        match r {
            Some(j) => j < items@.len() && items@[j as int]@ == item@ && forall|k: int|
                0 <= k < j ==> (#[trigger] items@[k])@ != item@,
            None => forall|k: int| 0 <= k < items@.len() ==> (#[trigger] items@[k])@ != item@,
        },
{
    let mut j: usize = 0;
    while j < items.len()
        invariant
            j <= items@.len(),
            forall|k: int| 0 <= k < j ==> (#[trigger] items@[k])@ != item@,
        decreases items@.len() - j,
    {
        if items[j] == *item {
            return Some(j);
        }
        j = j + 1;
    }
    None
}

} // verus!
