//! Values that travel with a request under a key, whatever their type.
use crate::text::str_eq;
use std::any::Any;
use vstd::prelude::*;

verus! {

/// A value of some `'static` type, kept without its type.
///
/// Verus has no declaration for `dyn Any`, so the box is opaque to it. What
/// it holds is known through [`Erased::holds`] alone.
#[verifier::external_body]
#[derive(Debug)]
pub struct Erased {
    value: Box<dyn Any>,
}

/// Trusted: `Box::new`, with the type of `value` forgotten. It has no
/// contract of its own: [`Erased::holds`] is the statement that a box is one
/// that this function returns for a value.
#[verifier::external_body]
fn seal<T: 'static>(value: T) -> Erased {
    Erased { value: Box::new(value) }
}

impl Erased {
    /// Whether this box is one that sealing `value` gives.
    pub closed spec fn holds<T: 'static>(&self, value: T) -> bool {
        call_ensures(seal::<T>, (value,), *self)
    }

    /// A box that holds `value`.
    pub fn new<T: 'static>(value: T) -> (boxed: Erased)
        ensures
            boxed.holds(value),
    {
        // Called through a value, for Verus then records that the box is one
        // that `seal` returns for `value`, which is what `holds` says.
        let make = seal::<T>;
        make(value)
    }

    /// Trusted: `downcast_ref` of `dyn Any` gives the value back under the
    /// type it was sealed with, and nothing under any other type.
    #[verifier::external_body]
    pub(crate) fn downcast_ref<T: 'static>(&self) -> (found: Option<&T>)
        ensures
            found matches Some(value) ==> self.holds(*value),
            forall|value: T| #[trigger] self.holds(value) ==> found == Some(&value),
    {
        self.value.downcast_ref::<T>()
    }
}

/// What the entries `entries` hold under each key, where an entry counts
/// over those before it.
pub open spec fn entries_map(entries: Seq<(String, Erased)>) -> Map<Seq<char>, Erased>
    decreases entries.len(),
{
    if entries.len() == 0 {
        Map::empty()
    } else {
        entries_map(entries.drop_last()).insert(entries.last().0@, entries.last().1)
    }
}

/// A key that no entry has is not held.
pub proof fn lemma_absent_key(entries: Seq<(String, Erased)>, key: Seq<char>)
    requires
        forall|j: int| 0 <= j < entries.len() ==> entries[j].0@ != key,
    ensures
        !entries_map(entries).contains_key(key),
    decreases entries.len(),
{
    if entries.len() > 0 {
        lemma_absent_key(entries.drop_last(), key);
    }
}

/// The last entry with a key is the one held under it.
pub proof fn lemma_last_entry_counts(entries: Seq<(String, Erased)>, key: Seq<char>, i: int)
    requires
        0 <= i < entries.len(),
        entries[i].0@ == key,
        forall|j: int| i < j < entries.len() ==> entries[j].0@ != key,
    ensures
        entries_map(entries).contains_key(key),
        entries_map(entries)[key] == entries[i].1,
    decreases entries.len(),
{
    if i < entries.len() - 1 {
        lemma_last_entry_counts(entries.drop_last(), key, i);
    }
}

/// To put a value in the place of the last entry with a key is to insert it
/// under that key.
pub proof fn lemma_replace_last_entry(
    entries: Seq<(String, Erased)>,
    i: int,
    entry: (String, Erased),
)
    requires
        0 <= i < entries.len(),
        entries[i].0@ == entry.0@,
        forall|j: int| i < j < entries.len() ==> entries[j].0@ != entry.0@,
    ensures
        entries_map(entries.update(i, entry)) == entries_map(entries).insert(entry.0@, entry.1),
    decreases entries.len(),
{
    let init = entries.drop_last();
    let changed = entries.update(i, entry);
    if i == entries.len() - 1 {
        assert(changed.drop_last() == init);
    } else {
        lemma_replace_last_entry(init, i, entry);
        assert(changed.drop_last() == init.update(i, entry));
    }
}

/// The values that travel with one request, each under a key. A value that
/// is put under a key stays there until another is put under the same key.
#[derive(Debug)]
pub struct Extras {
    entries: Vec<(String, Erased)>,
}

impl View for Extras {
    type V = Map<Seq<char>, Erased>;

    closed spec fn view(&self) -> Map<Seq<char>, Erased> {
        entries_map(self.entries@)
    }
}

impl Extras {
    /// No values.
    pub fn new() -> (extras: Extras)
        ensures
            extras@ == Map::<Seq<char>, Erased>::empty(),
    {
        Extras { entries: Vec::new() }
    }

    /// The place of the last entry with the key `key`, or the number of
    /// entries where there is none.
    fn find(&self, key: &str) -> (i: usize)
        ensures
            i <= self.entries@.len(),
            i < self.entries@.len() ==> self.entries@[i as int].0@ == key@,
            forall|j: int| i < j < self.entries@.len() ==> self.entries@[j].0@ != key@,
            i == self.entries@.len() ==> forall|j: int|
                0 <= j < self.entries@.len() ==> self.entries@[j].0@ != key@,
    {
        let n = self.entries.len();
        let mut i = n;
        while i > 0
            invariant
                i <= n,
                n == self.entries@.len(),
                forall|j: int| i <= j < n ==> self.entries@[j].0@ != key@,
            decreases i,
        {
            i = i - 1;
            if str_eq(self.entries[i].0.as_str(), key) {
                return i;
            }
        }
        n
    }

    /// The value under the key `key`, if there is one.
    pub fn get(&self, key: &str) -> (found: Option<&Erased>)
        ensures
            found is Some <==> self@.contains_key(key@),
            found matches Some(value) ==> *value == self@[key@],
    {
        let i = self.find(key);
        if i < self.entries.len() {
            proof {
                lemma_last_entry_counts(self.entries@, key@, i as int);
            }
            Some(&self.entries[i].1)
        } else {
            proof {
                lemma_absent_key(self.entries@, key@);
            }
            None
        }
    }

    /// Puts `value` under the key `key`, in place of what was there.
    pub fn put(&mut self, key: &str, value: Erased)
        ensures
            final(self)@ == old(self)@.insert(key@, value),
    {
        let i = self.find(key);
        let entry = (key.to_owned(), value);
        if i < self.entries.len() {
            proof {
                lemma_replace_last_entry(self.entries@, i as int, entry);
            }
            self.entries.set(i, entry);
        } else {
            self.entries.push(entry);
            assert(self.entries@.drop_last() == old(self).entries@);
        }
    }
}

} // verus!
