//! The heap: the store that the nodes of a workflow share.
//!
//! The heap maps a key to an optional value. A key can be absent, present
//! without a value, or present with a value.

use crate::datum::{view_of, Datum, DatumView, Number, NumberView};
use crate::text::{
    chars_of, integer_string, integer_text, token_end, token_end_at, token_name, trim_bounds,
};
use crate::yaml::{yaml_encoding, yaml_text};
use vstd::prelude::*;

verus! {

/// The mathematical model of a heap: a finite map from keys to optional
/// values.
pub type Store = Map<Seq<char>, Option<DatumView>>;

/// The value that `store` holds under `key`, if it holds one.
///
/// An absent key and a key without a value both give `None`.
pub open spec fn lookup(store: Store, key: Seq<char>) -> Option<DatumView> {
    if store.contains_key(key) {
        store[key]
    } else {
        None
    }
}

/// The text that stands for a value when it replaces a token.
///
/// A string stands for itself, an integer for its decimal text, a
/// floating-point number for the decimal text it is held as, a boolean for
/// `true` or `false`, null for `null`. A sequence or a mapping stands for
/// its YAML encoding, or for the empty text where it has none.
pub open spec fn rendered(value: DatumView) -> Seq<char> {
    match value {
        DatumView::String(text) => text,
        DatumView::Number(NumberView::Integer(n)) => integer_text(n),
        DatumView::Number(NumberView::Float(text)) => text,
        DatumView::Bool(b) => if b {
            seq!['t', 'r', 'u', 'e']
        } else {
            seq!['f', 'a', 'l', 's', 'e']
        },
        DatumView::Null => seq!['n', 'u', 'l', 'l'],
        _ => match yaml_encoding(value) {
            Some(text) => text,
            None => Seq::empty(),
        },
    }
}

/// What the token `s[i..end]` becomes: the rendering of the value that the
/// store holds under its name, or the token itself where the store holds
/// none.
pub open spec fn replacement(s: Seq<char>, i: int, end: int, store: Store) -> Seq<char> {
    match lookup(store, token_name(s, i, end)) {
        Some(value) => rendered(value),
        None => s.subrange(i, end),
    }
}

/// The text `s[i..]` with its tokens replaced, scanning from left to right.
///
/// Where a token starts at `i`, its replacement is followed by the
/// expansion of what comes after the token: a replacement is never scanned
/// again. Elsewhere the character at `i` is kept.
pub open spec fn expand_from(s: Seq<char>, i: int, store: Store) -> Seq<char>
    decreases s.len() - i,
{
    if i < 0 || i >= s.len() {
        Seq::empty()
    } else {
        match token_end(s, i) {
            Some(end) => replacement(s, i, end, store) + expand_from(s, end, store),
            None => seq![s[i]] + expand_from(s, i + 1, store),
        }
    }
}

/// The text `s` with its tokens replaced.
pub open spec fn expand(s: Seq<char>, store: Store) -> Seq<char> {
    expand_from(s, 0, store)
}

/// The result of substitution on an optional value: a string has its
/// tokens replaced, anything else is left as it is.
pub open spec fn substituted(value: Option<DatumView>, store: Store) -> Option<DatumView> {
    match value {
        Some(DatumView::String(text)) => Some(DatumView::String(expand(text, store))),
        _ => value,
    }
}

/// Where the store holds no value under the name of any token at or after
/// position `i`, expanding `s[i..]` gives `s[i..]` back.
pub proof fn lemma_expand_from_unresolved(s: Seq<char>, i: int, store: Store)
    requires
        0 <= i <= s.len(),
        forall|j: int, end: int|
            i <= j && token_end(s, j) == Some(end) ==> lookup(store, token_name(s, j, end))
                is None,
    ensures
        expand_from(s, i, store) == s.subrange(i, s.len() as int),
    decreases s.len() - i,
{
    if i < s.len() {
        match token_end(s, i) {
            Some(end) => {
                lemma_expand_from_unresolved(s, end, store);
                assert(lookup(store, token_name(s, i, end)) is None);
                assert(s.subrange(i, end) + s.subrange(end, s.len() as int) =~= s.subrange(
                    i,
                    s.len() as int,
                ));
            },
            None => {
                lemma_expand_from_unresolved(s, i + 1, store);
                assert(seq![s[i]] + s.subrange(i + 1, s.len() as int) =~= s.subrange(
                    i,
                    s.len() as int,
                ));
            },
        }
    } else {
        assert(s.subrange(i, s.len() as int) =~= Seq::<char>::empty());
    }
}

/// Tokens that the store cannot resolve stay as they are: where the store
/// holds no value under the name of any token of `s`, substitution returns
/// `s` unchanged.
pub proof fn lemma_unresolved_tokens_stay(s: Seq<char>, store: Store)
    requires
        forall|j: int, end: int|
            token_end(s, j) == Some(end) ==> lookup(store, token_name(s, j, end)) is None,
    ensures
        expand(s, store) == s,
        substituted(Some(DatumView::String(s)), store) == Some(DatumView::String(s)),
{
    lemma_expand_from_unresolved(s, 0, store);
    assert(s.subrange(0, s.len() as int) =~= s);
}

/// A token that the store resolves is replaced by its value's text: where
/// `s` is one token and the store holds a value under its name,
/// substitution returns the rendering of that value.
pub proof fn lemma_resolved_token_is_rendered(s: Seq<char>, store: Store)
    requires
        token_end(s, 0) == Some(s.len() as int),
        lookup(store, token_name(s, 0, s.len() as int)) is Some,
    ensures
        expand(s, store) == rendered(lookup(store, token_name(s, 0, s.len() as int))->0),
{
    let end = s.len() as int;
    assert(expand_from(s, end, store) == Seq::<char>::empty());
    assert(replacement(s, 0, end, store) + Seq::<char>::empty() =~= replacement(s, 0, end, store));
}

/// Substitution against a store without values changes no string.
pub proof fn lemma_expand_in_empty_store(s: Seq<char>)
    ensures
        expand(s, Store::empty()) == s,
{
    lemma_unresolved_tokens_stay(s, Store::empty());
}

/// Substitution leaves everything but strings as it is, whatever the store
/// holds.
pub proof fn lemma_non_strings_pass_through(value: Option<DatumView>, store: Store)
    requires
        !(value matches Some(DatumView::String(_))),
    ensures
        substituted(value, store) == value,
{
}

/// The store that a list of entries stands for, later entries taking
/// precedence.
pub open spec fn store_of(entries: Seq<(String, Option<Datum>)>) -> Store
    decreases entries.len(),
{
    if entries.len() == 0 {
        Map::empty()
    } else {
        store_of(entries.drop_last()).insert(entries.last().0@, view_of(entries.last().1))
    }
}

/// No key occurs twice in `entries`.
pub open spec fn distinct_keys(entries: Seq<(String, Option<Datum>)>) -> bool {
    forall|i: int, j: int|
        0 <= i < j < entries.len() ==> (#[trigger] entries[i]).0@ != (#[trigger] entries[j]).0@
}

/// The store of a list of entries has a finite domain, and holds no key
/// that the list does not hold.
pub proof fn lemma_store_of_keys(entries: Seq<(String, Option<Datum>)>)
    ensures
        store_of(entries).dom().finite(),
        forall|key: Seq<char>|
            store_of(entries).contains_key(key) <==> exists|i: int|
                0 <= i < entries.len() && (#[trigger] entries[i]).0@ == key,
    decreases entries.len(),
{
    if entries.len() > 0 {
        let front = entries.drop_last();
        lemma_store_of_keys(front);
        assert forall|key: Seq<char>|
            store_of(entries).contains_key(key) implies exists|i: int|
            0 <= i < entries.len() && (#[trigger] entries[i]).0@ == key by {
            if key == entries.last().0@ {
                assert(entries[entries.len() - 1].0@ == key);
            } else {
                let i = choose|i: int| 0 <= i < front.len() && (#[trigger] front[i]).0@ == key;
                assert(entries[i].0@ == key);
            }
        }
        assert forall|key: Seq<char>|
            (exists|i: int|
                0 <= i < entries.len() && (#[trigger] entries[i]).0@ == key) implies store_of(
            entries,
        ).contains_key(key) by {
            let i = choose|i: int| 0 <= i < entries.len() && (#[trigger] entries[i]).0@ == key;
            if i < entries.len() - 1 {
                assert(front[i].0@ == key);
            }
        }
    }
}

/// Where keys are distinct, the store holds under each key the value that
/// the list pairs with it, and has as many keys as the list has entries.
pub proof fn lemma_store_of_distinct(entries: Seq<(String, Option<Datum>)>)
    requires
        distinct_keys(entries),
    ensures
        store_of(entries).dom().len() == entries.len(),
        forall|i: int|
            0 <= i < entries.len() ==> store_of(entries)[(#[trigger] entries[i]).0@] == view_of(
                entries[i].1,
            ),
    decreases entries.len(),
{
    if entries.len() > 0 {
        let front = entries.drop_last();
        assert(distinct_keys(front)) by {
            assert forall|i: int, j: int| 0 <= i < j < front.len() implies (#[trigger] front[i]).0@
                != (#[trigger] front[j]).0@ by {
                assert(entries[i].0@ != entries[j].0@);
            }
        }
        lemma_store_of_distinct(front);
        lemma_store_of_keys(front);
        let last = entries.len() - 1;
        assert(!store_of(front).contains_key(entries.last().0@)) by {
            if store_of(front).contains_key(entries.last().0@) {
                let i = choose|i: int|
                    0 <= i < front.len() && (#[trigger] front[i]).0@ == entries.last().0@;
                assert(entries[i].0@ != entries[last].0@);
            }
        }
        assert forall|i: int| 0 <= i < entries.len() implies store_of(entries)[(
        #[trigger] entries[i]).0@] == view_of(entries[i].1) by {
            if i < last {
                assert(entries[i].0@ != entries[last].0@);
                assert(front[i].0@ == entries[i].0@);
            }
        }
    }
}

/// Taking one entry out of a list with distinct keys takes its key out of
/// the store, and nothing else.
pub proof fn lemma_store_of_remove(entries: Seq<(String, Option<Datum>)>, at: int)
    requires
        distinct_keys(entries),
        0 <= at < entries.len(),
    ensures
        distinct_keys(entries.remove(at)),
        store_of(entries.remove(at)) == store_of(entries).remove(entries[at].0@),
{
    let rest = entries.remove(at);
    assert(distinct_keys(rest)) by {
        assert forall|i: int, j: int| 0 <= i < j < rest.len() implies (#[trigger] rest[i]).0@ != (
        #[trigger] rest[j]).0@ by {
            let a = if i < at {
                i
            } else {
                i + 1
            };
            let b = if j < at {
                j
            } else {
                j + 1
            };
            assert(entries[a].0@ != entries[b].0@);
        }
    }
    lemma_store_of_keys(entries);
    lemma_store_of_keys(rest);
    lemma_store_of_distinct(entries);
    lemma_store_of_distinct(rest);
    let left = store_of(rest);
    let right = store_of(entries).remove(entries[at].0@);
    assert forall|key: Seq<char>| left.contains_key(key) <==> right.contains_key(key) by {
        if left.contains_key(key) {
            let i = choose|i: int| 0 <= i < rest.len() && (#[trigger] rest[i]).0@ == key;
            let a = if i < at {
                i
            } else {
                i + 1
            };
            assert(entries[a].0@ == key);
            if a < at {
                assert(entries[a].0@ != entries[at].0@);
            } else {
                assert(entries[at].0@ != entries[a].0@);
            }
        }
        if right.contains_key(key) {
            let a = choose|a: int| 0 <= a < entries.len() && (#[trigger] entries[a]).0@ == key;
            let i = if a < at {
                a
            } else {
                a - 1
            };
            assert(rest[i].0@ == key);
        }
    }
    assert forall|key: Seq<char>| left.contains_key(key) implies left[key] == right[key] by {
        let i = choose|i: int| 0 <= i < rest.len() && (#[trigger] rest[i]).0@ == key;
        let a = if i < at {
            i
        } else {
            i + 1
        };
        assert(entries[a].0@ == key);
        assert(rest[i] == entries[a]);
    }
    assert(left =~= right);
}

/// The store of a list of entries depends on the models of its keys and
/// values only.
pub proof fn lemma_store_of_models(
    left: Seq<(String, Option<Datum>)>,
    right: Seq<(String, Option<Datum>)>,
)
    requires
        left.len() == right.len(),
        forall|i: int|
            0 <= i < left.len() ==> (#[trigger] left[i]).0@ == right[i].0@ && view_of(left[i].1)
                == view_of(right[i].1),
    ensures
        store_of(left) == store_of(right),
        distinct_keys(left) ==> distinct_keys(right),
    decreases left.len(),
{
    if left.len() > 0 {
        let last = left.len() - 1;
        assert(left[last].0@ == right[last].0@);
        assert forall|i: int| 0 <= i < left.drop_last().len() implies (
        #[trigger] left.drop_last()[i]).0@ == right.drop_last()[i].0@ && view_of(
            left.drop_last()[i].1,
        ) == view_of(right.drop_last()[i].1) by {
            assert(left[i].0@ == right[i].0@);
        }
        lemma_store_of_models(left.drop_last(), right.drop_last());
    }
    if distinct_keys(left) {
        assert forall|i: int, j: int| 0 <= i < j < right.len() implies (#[trigger] right[i]).0@ != (
        #[trigger] right[j]).0@ by {
            assert(left[i].0@ == right[i].0@);
            assert(left[j].0@ == right[j].0@);
        }
    }
}

/// A shared store for the results of a workflow's nodes.
///
/// The entries are kept in a list in which no key occurs twice. A hash map
/// with string keys would not do: vstd models the hashing of integers, not
/// of strings, so nothing could be proved of what such a map holds.
#[derive(Debug)]
pub struct Heap {
    data: Vec<(String, Option<Datum>)>,
}

impl View for Heap {
    type V = Store;

    closed spec fn view(&self) -> Store {
        store_of(self.data@)
    }
}

impl Heap {
    #[verifier::type_invariant]
    spec fn keys_are_distinct(&self) -> bool {
        distinct_keys(self.data@)
    }

    /// Creates an empty heap.
    pub fn new() -> (heap: Self)
        ensures
            heap@ == Store::empty(),
    {
        Heap { data: Vec::new() }
    }

    /// Finds the position of the entry for `key`.
    fn position(&self, key: &str) -> (r: Option<usize>)
        ensures
            match r {
                Some(at) => at < self.data.len() && self.data@[at as int].0@ == key@,
                None => forall|i: int| 0 <= i < self.data.len() ==> self.data@[i].0@ != key@,
            },
    {
        let wanted = String::from_str(key);
        let mut at: usize = 0;
        while at < self.data.len()
            invariant
                at <= self.data.len(),
                wanted@ == key@,
                forall|i: int| 0 <= i < at ==> self.data@[i].0@ != key@,
            decreases self.data.len() - at,
        {
            if self.data[at].0 == wanted {
                return Some(at);
            }
            at += 1;
        }
        None
    }

    /// Gets the value stored under `key`.
    ///
    /// Returns `None` both where the key is absent and where it is present
    /// without a value.
    pub fn get(&self, key: &str) -> (r: Option<&Datum>)
        ensures
            match r {
                Some(value) => lookup(self@, key@) == Some(value@),
                None => lookup(self@, key@) is None,
            },
    {
        proof {
            use_type_invariant(self);
            lemma_store_of_keys(self.data@);
            lemma_store_of_distinct(self.data@);
        }
        match self.position(key) {
            Some(at) => {
                assert(self.data@[at as int].0@ == key@);
                match &self.data[at].1 {
                    Some(value) => Some(value),
                    None => None,
                }
            },
            None => None,
        }
    }

    /// Stores `value` under `key`, and returns the value that was stored
    /// under it before, if there was one.
    pub fn insert(&mut self, key: &str, value: Option<Datum>) -> (previous: Option<Datum>)
        ensures
            final(self)@ == old(self)@.insert(key@, view_of(value)),
            view_of(previous) == lookup(old(self)@, key@),
    {
        proof {
            use_type_invariant(&*self);
            lemma_store_of_keys(self.data@);
            lemma_store_of_distinct(self.data@);
        }
        let found = self.position(key);
        let mut data: Vec<(String, Option<Datum>)> = Vec::new();
        core::mem::swap(&mut self.data, &mut data);
        let ghost before = data@;
        let previous = match found {
            Some(at) => {
                proof {
                    lemma_store_of_remove(before, at as int);
                }
                let entry = data.remove(at);
                entry.1
            },
            None => None,
        };
        let ghost rest = data@;
        proof {
            lemma_store_of_keys(rest);
            assert(!store_of(rest).contains_key(key@));
        }
        data.push((String::from_str(key), value));
        proof {
            assert(data@.drop_last() == rest);
            assert(store_of(data@) == store_of(rest).insert(key@, view_of(value)));
            assert(store_of(rest).insert(key@, view_of(value)) =~= store_of(before).insert(
                key@,
                view_of(value),
            ));
            assert(distinct_keys(data@)) by {
                assert forall|i: int, j: int| 0 <= i < j < data@.len() implies (
                #[trigger] data@[i]).0@ != (#[trigger] data@[j]).0@ by {
                    assert(rest[i] == data@[i]);
                    if j < rest.len() {
                        assert(rest[j] == data@[j]);
                    }
                }
            }
        }
        self.data = data;
        previous
    }

    /// Tests whether `key` is present, with or without a value.
    pub fn contains_key(&self, key: &str) -> (r: bool)
        ensures
            r == self@.contains_key(key@),
    {
        proof {
            use_type_invariant(self);
            lemma_store_of_keys(self.data@);
        }
        match self.position(key) {
            Some(at) => {
                assert(self.data@[at as int].0@ == key@);
                true
            },
            None => false,
        }
    }

    /// Takes `key` out of the heap, and returns the value that was stored
    /// under it, if there was one.
    pub fn remove(&mut self, key: &str) -> (removed: Option<Datum>)
        ensures
            final(self)@ == old(self)@.remove(key@),
            view_of(removed) == lookup(old(self)@, key@),
    {
        proof {
            use_type_invariant(&*self);
            lemma_store_of_keys(self.data@);
            lemma_store_of_distinct(self.data@);
        }
        match self.position(key) {
            Some(at) => {
                let mut data: Vec<(String, Option<Datum>)> = Vec::new();
                core::mem::swap(&mut self.data, &mut data);
                proof {
                    lemma_store_of_remove(data@, at as int);
                }
                let entry = data.remove(at);
                self.data = data;
                entry.1
            },
            None => {
                assert(self@.remove(key@) =~= self@);
                None
            },
        }
    }

    /// The number of keys in the heap.
    pub fn len(&self) -> (n: usize)
        ensures
            n == self@.len(),
            self@.dom().finite(),
    {
        proof {
            use_type_invariant(self);
            lemma_store_of_keys(self.data@);
            lemma_store_of_distinct(self.data@);
        }
        self.data.len()
    }

    /// Tests whether the heap holds no key.
    pub fn is_empty(&self) -> (r: bool)
        ensures
            r == (self@ == Store::empty()),
    {
        proof {
            use_type_invariant(self);
            lemma_store_of_keys(self.data@);
            if self.data@.len() > 0 {
                assert(self@.contains_key(self.data@[0].0@));
            } else {
                assert(self@ =~= Store::empty());
            }
        }
        self.data.len() == 0
    }

    /// Takes every key out of the heap.
    pub fn clear(&mut self)
        ensures
            final(self)@ == Store::empty(),
    {
        self.data = Vec::new();
    }
    /// Creates a heap from a list of entries. Where a key occurs more than
    /// once, its last entry counts.
    pub fn from_entries(entries: Vec<(String, Option<Datum>)>) -> (heap: Self)
        ensures
            heap@ == store_of(entries@),
    {
        let mut heap = Heap::new();
        let mut entries = entries;
        let ghost all = entries@;
        let mut rest: Vec<(String, Option<Datum>)> = Vec::new();
        // Take the entries from the back, so that each can be moved out.
        while entries.len() > 0
            invariant
                entries@.len() + rest@.len() == all.len(),
                entries@ == all.subrange(0, entries@.len() as int),
                forall|i: int|
                    0 <= i < rest@.len() ==> rest@[i] == all[all.len() - 1 - i],
            decreases entries.len(),
        {
            let entry = entries.pop().unwrap();
            rest.push(entry);
        }
        let ghost total = rest@.len();
        while rest.len() > 0
            invariant
                total == all.len(),
                rest@.len() <= total,
                forall|i: int|
                    0 <= i < rest@.len() ==> rest@[i] == all[all.len() - 1 - i],
                heap@ == store_of(all.subrange(0, total - rest@.len())),
            decreases rest.len(),
        {
            let ghost done = total - rest@.len();
            let entry = rest.pop().unwrap();
            proof {
                let next = all.subrange(0, done + 1);
                assert(next.drop_last() == all.subrange(0, done));
                assert(next.last() == entry);
            }
            heap.insert(entry.0.as_str(), entry.1);
        }
        assert(all.subrange(0, total as int) == all);
        heap
    }

    /// The entries of the heap, each key once, in no particular order.
    pub fn entries(&self) -> (entries: &Vec<(String, Option<Datum>)>)
        ensures
            distinct_keys(entries@),
            store_of(entries@) == self@,
    {
        proof {
            use_type_invariant(self);
        }
        &self.data
    }

    /// Turns the heap into the list of its entries, each key once, in no
    /// particular order.
    pub fn into_entries(self) -> (entries: Vec<(String, Option<Datum>)>)
        ensures
            distinct_keys(entries@),
            store_of(entries@) == self@,
    {
        proof {
            use_type_invariant(&self);
        }
        self.data
    }

    /// Renders `value` as the text that replaces a token.
    pub fn value_to_string(&self, value: &Datum) -> (text: String)
        ensures
            text@ == rendered(value@),
    {
        match value {
            Datum::String(s) => s.clone(),
            Datum::Number(Number::Integer(n)) => integer_string(*n),
            Datum::Number(Number::Float(s)) => s.clone(),
            Datum::Bool(b) => {
                proof {
                    reveal_strlit("true");
                    reveal_strlit("false");
                }
                let text = if *b {
                    String::from_str("true")
                } else {
                    String::from_str("false")
                };
                assert(text@ =~= rendered(value@));
                text
            },
            Datum::Null => {
                proof {
                    reveal_strlit("null");
                }
                let text = String::from_str("null");
                assert(text@ =~= rendered(value@));
                text
            },
            _ => match yaml_text(value) {
                Ok(text) => text,
                Err(_) => String::new(),
            },
        }
    }

    /// Replaces the tokens of `text` by the values stored under their names.
    fn expand_text(&self, text: &str) -> (r: String)
        ensures
            r@ == expand(text@, self@),
    {
        let chars = chars_of(text);
        let n = chars.len();
        let mut out = String::new();
        let mut kept: usize = 0;
        let mut i: usize = 0;
        while i < n
            invariant
                chars@ == text@,
                n == chars.len(),
                kept <= i <= n,
                expand(text@, self@) == out@ + text@.subrange(kept as int, i as int) + expand_from(
                    text@,
                    i as int,
                    self@,
                ),
            decreases n - i,
        {
            match token_end_at(&chars, i) {
                Some(end) => {
                    let (from, to) = trim_bounds(&chars, i + 3, end - 2);
                    let name = text.substring_char(from, to);
                    assert(name@ == token_name(text@, i as int, end as int));
                    match self.get(name) {
                        Some(value) => {
                            let shown = self.value_to_string(value);
                            let ghost before = out@;
                            out.append(text.substring_char(kept, i));
                            out.append(shown.as_str());
                            assert(out@ + text@.subrange(end as int, end as int) =~= before
                                + text@.subrange(kept as int, i as int) + replacement(
                                text@,
                                i as int,
                                end as int,
                                self@,
                            ));
                            kept = end;
                        },
                        None => {
                            assert(text@.subrange(kept as int, end as int) =~= text@.subrange(
                                kept as int,
                                i as int,
                            ) + replacement(text@, i as int, end as int, self@));
                        },
                    }
                    i = end;
                },
                None => {
                    assert(text@.subrange(kept as int, i + 1) =~= text@.subrange(
                        kept as int,
                        i as int,
                    ) + seq![text@[i as int]]);
                    i += 1;
                },
            }
        }
        out.append(text.substring_char(kept, n));
        assert(out@ =~= expand(text@, self@));
        out
    }

    /// Substitutes the tokens of a string value.
    ///
    /// Each `${{ name }}` token whose name has a value in the heap is replaced
    /// by that value's text; every other token stays as it is. A value that
    /// is not a string, and an absent value, are returned unchanged.
    pub fn parse(&self, value: Option<Datum>) -> (r: Option<Datum>)
        ensures
            view_of(r) == substituted(view_of(value), self@),
            !(value matches Some(Datum::String(_))) ==> r == value,
    {
        match value {
            Some(Datum::String(text)) => Some(Datum::String(self.expand_text(text.as_str()))),
            other => other,
        }
    }
}

impl Clone for Heap {
    fn clone(&self) -> (copy: Self)
        ensures
            copy@ == self@,
    {
        proof {
            use_type_invariant(self);
        }
        let mut data: Vec<(String, Option<Datum>)> = Vec::new();
        let mut i: usize = 0;
        while i < self.data.len()
            invariant
                i <= self.data.len(),
                data.len() == i,
                forall|j: int|
                    0 <= j < i ==> (#[trigger] self.data@[j]).0@ == data@[j].0@ && view_of(
                        self.data@[j].1,
                    ) == view_of(data@[j].1),
            decreases self.data.len() - i,
        {
            let value = match &self.data[i].1 {
                Some(value) => Some(value.clone()),
                None => None,
            };
            data.push((self.data[i].0.clone(), value));
            i += 1;
        }
        proof {
            use_type_invariant(self);
            lemma_store_of_models(self.data@, data@);
        }
        Heap { data }
    }
}

impl Default for Heap {
    fn default() -> (heap: Self)
        ensures
            heap@ == Store::empty(),
    {
        Heap::new()
    }
}

} // verus!
