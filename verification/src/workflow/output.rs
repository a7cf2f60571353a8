//! The declared output of a workflow.

use crate::datum::{view_of, Datum, DatumView};
use crate::heap::{
    distinct_keys, lemma_store_of_distinct, lemma_store_of_keys, store_of, Heap, Store,
};
use vstd::prelude::*;

verus! {

/// What a workflow declares as its output: values by name. It documents the
/// workflow; the engine does not read it.
#[derive(Debug)]
pub struct WorkflowOutput {
    values: Heap,
}

/// The store in which every key has a value, seen as a map from keys to
/// values.
pub open spec fn values_of(store: Store) -> Map<Seq<char>, DatumView> {
    Map::new(|key: Seq<char>| store.contains_key(key), |key: Seq<char>| store[key]->0)
}

/// The map that a list of named values stands for, later values taking
/// precedence.
pub open spec fn output_of(values: Seq<(String, Datum)>) -> Map<Seq<char>, DatumView>
    decreases values.len(),
{
    if values.len() == 0 {
        Map::empty()
    } else {
        output_of(values.drop_last()).insert(values.last().0@, values.last().1@)
    }
}

impl View for WorkflowOutput {
    type V = Map<Seq<char>, DatumView>;

    closed spec fn view(&self) -> Map<Seq<char>, DatumView> {
        values_of(self.values@)
    }
}

impl WorkflowOutput {
    #[verifier::type_invariant]
    spec fn every_key_has_a_value(&self) -> bool {
        forall|key: Seq<char>| #[trigger]
            self.values@.contains_key(key) ==> self.values@[key] is Some
    }

    /// Creates an output without values.
    pub fn new() -> (output: Self)
        ensures
            output@ == Map::<Seq<char>, DatumView>::empty(),
    {
        let output = WorkflowOutput { values: Heap::new() };
        assert(output@ =~= Map::<Seq<char>, DatumView>::empty());
        output
    }

    /// Creates an output from a list of named values. Where a name occurs
    /// more than once, its last value counts.
    pub fn from_map(values: Vec<(String, Datum)>) -> (output: Self)
        ensures
            output@ == output_of(values@),
    {
        let mut output = WorkflowOutput::new();
        let mut values = values;
        let ghost all = values@;
        let mut rest: Vec<(String, Datum)> = Vec::new();
        while values.len() > 0
            invariant
                values@.len() + rest@.len() == all.len(),
                values@ == all.subrange(0, values@.len() as int),
                forall|i: int| 0 <= i < rest@.len() ==> rest@[i] == all[all.len() - 1 - i],
            decreases values.len(),
        {
            let entry = values.pop().unwrap();
            rest.push(entry);
        }
        let ghost total = rest@.len();
        while rest.len() > 0
            invariant
                total == all.len(),
                rest@.len() <= total,
                forall|i: int| 0 <= i < rest@.len() ==> rest@[i] == all[all.len() - 1 - i],
                output@ == output_of(all.subrange(0, total - rest@.len())),
            decreases rest.len(),
        {
            let ghost done = total - rest@.len();
            let entry = rest.pop().unwrap();
            proof {
                let next = all.subrange(0, done + 1);
                assert(next.drop_last() == all.subrange(0, done));
                assert(next.last() == entry);
            }
            output.insert(entry.0.as_str(), entry.1);
        }
        assert(all.subrange(0, total as int) == all);
        output
    }

    /// Sets the value of `key` to `value`.
    pub fn insert(&mut self, key: &str, value: Datum)
        ensures
            final(self)@ == old(self)@.insert(key@, value@),
    {
        proof {
            use_type_invariant(&*self);
        }
        let mut values = Heap::new();
        core::mem::swap(&mut self.values, &mut values);
        let ghost before = values@;
        let _ = values.insert(key, Some(value));
        assert(values_of(values@) =~= values_of(before).insert(key@, value@));
        self.values = values;
    }

    /// The value of `key`, if it has one.
    pub fn get(&self, key: &str) -> (value: Option<&Datum>)
        ensures
            match value {
                Some(value) => self@.contains_key(key@) && self@[key@] == value@,
                None => !self@.contains_key(key@),
            },
    {
        proof {
            use_type_invariant(self);
        }
        self.values.get(key)
    }

    /// Tests whether the output has no value.
    pub fn is_empty(&self) -> (r: bool)
        ensures
            r == (self@ == Map::<Seq<char>, DatumView>::empty()),
    {
        let r = self.values.is_empty();
        proof {
            if r {
                assert(self@ =~= Map::<Seq<char>, DatumView>::empty());
            } else {
                assert(self.values@ !~= Store::empty());
                let key = choose|key: Seq<char>| self.values@.contains_key(key);
                assert(self@.contains_key(key));
            }
        }
        r
    }

    /// The number of values.
    pub fn len(&self) -> (n: usize)
        ensures
            n == self@.len(),
            self@.dom().finite(),
    {
        assert(self@.dom() =~= self.values@.dom());
        self.values.len()
    }
    /// The names with their values, each name once, in no particular order.
    pub fn iter(&self) -> (pairs: Vec<(&String, &Datum)>)
        ensures
            pairs@.len() == self@.len(),
            forall|i: int|
                0 <= i < pairs@.len() ==> self@.contains_key((#[trigger] pairs@[i]).0@)
                    && self@[pairs@[i].0@] == pairs@[i].1@,
            forall|i: int, j: int|
                0 <= i < j < pairs@.len() ==> (#[trigger] pairs@[i]).0@ != (#[trigger] pairs@[j]).0@,
    {
        proof {
            use_type_invariant(self);
        }
        let entries = self.values.entries();
        proof {
            lemma_store_of_keys(entries@);
            lemma_store_of_distinct(entries@);
            assert(self@.dom() =~= self.values@.dom());
        }
        let mut pairs: Vec<(&String, &Datum)> = Vec::new();
        let mut i: usize = 0;
        while i < entries.len()
            invariant
                i <= entries.len(),
                pairs@.len() == i,
                distinct_keys(entries@),
                store_of(entries@) == self.values@,
                forall|key: Seq<char>| #[trigger]
                    self.values@.contains_key(key) ==> self.values@[key] is Some,
                forall|j: int|
                    0 <= j < entries@.len() ==> self.values@.contains_key(
                        (#[trigger] entries@[j]).0@,
                    ) && self.values@[entries@[j].0@] == view_of(entries@[j].1),
                forall|j: int|
                    0 <= j < i ==> (#[trigger] pairs@[j]).0@ == entries@[j].0@ && Some(
                        pairs@[j].1@,
                    ) == view_of(entries@[j].1),
            decreases entries.len() - i,
        {
            assert(self.values@.contains_key(entries@[i as int].0@));
            match &entries[i].1 {
                Some(value) => {
                    pairs.push((&entries[i].0, value));
                },
                None => {
                    assert(false);
                },
            }
            i += 1;
        }
        assert forall|a: int, b: int| 0 <= a < b < pairs@.len() implies (#[trigger] pairs@[a]).0@ != (
        #[trigger] pairs@[b]).0@ by {
            assert(entries@[a].0@ != entries@[b].0@);
        }
        assert forall|a: int| 0 <= a < pairs@.len() implies self@.contains_key(
            (#[trigger] pairs@[a]).0@,
        ) && self@[pairs@[a].0@] == pairs@[a].1@ by {
            assert(self.values@.contains_key(entries@[a].0@));
        }
        pairs
    }
}

impl Clone for WorkflowOutput {
    fn clone(&self) -> (copy: Self)
        ensures
            copy@ == self@,
    {
        proof {
            use_type_invariant(self);
        }
        WorkflowOutput { values: self.values.clone() }
    }
}

impl Default for WorkflowOutput {
    fn default() -> (output: Self)
        ensures
            output@ == Map::<Seq<char>, DatumView>::empty(),
    {
        WorkflowOutput::new()
    }
}

} // verus!
