//! Semi-structured values: what a node takes as input and leaves as its result.

use vstd::prelude::*;
use vstd::std_specs::convert::FromSpecImpl;

verus! {

/// A number: an integer, or a floating-point number held as its decimal
/// text.
#[derive(Debug, PartialEq, Eq)]
pub enum Number {
    /// A signed integer.
    Integer(i64),
    /// A floating-point number, as its decimal text: `2.5`, `1`, `inf`,
    /// `NaN`. The text is what stands for the number when it replaces a
    /// token.
    Float(String),
}

/// The mathematical model of a [`Number`].
pub ghost enum NumberView {
    Integer(int),
    Float(Seq<char>),
}

impl View for Number {
    type V = NumberView;

    open spec fn view(&self) -> NumberView {
        match self {
            Number::Integer(n) => NumberView::Integer(*n as int),
            Number::Float(text) => NumberView::Float(text@),
        }
    }
}

/// A semi-structured value: null, a boolean, a number, a string, a sequence
/// of values, or a mapping from strings to values.
#[derive(Debug, PartialEq, Eq)]
pub enum Datum {
    /// The null value.
    Null,
    /// A boolean.
    Bool(bool),
    /// A number.
    Number(Number),
    /// A string.
    String(String),
    /// An ordered sequence of values.
    Sequence(Vec<Datum>),
    /// A mapping from string keys to values, in insertion order.
    Mapping(Vec<(String, Datum)>),
}

/// The mathematical model of a [`Datum`].
pub ghost enum DatumView {
    Null,
    Bool(bool),
    Number(NumberView),
    String(Seq<char>),
    Sequence(Seq<DatumView>),
    Mapping(Seq<(Seq<char>, DatumView)>),
}

impl View for Datum {
    type V = DatumView;

    open spec fn view(&self) -> DatumView
        decreases self,
    {
        match self {
            Datum::Null => DatumView::Null,
            Datum::Bool(b) => DatumView::Bool(*b),
            Datum::Number(n) => DatumView::Number(n@),
            Datum::String(s) => DatumView::String(s@),
            Datum::Sequence(items) => DatumView::Sequence(
                Seq::new(
                    items@.len(),
                    |i: int|
                        if 0 <= i < items@.len() {
                            items@[i]@
                        } else {
                            DatumView::Null
                        },
                ),
            ),
            Datum::Mapping(entries) => DatumView::Mapping(
                Seq::new(
                    entries@.len(),
                    |i: int|
                        (
                            entries@[i].0@,
                            if 0 <= i < entries@.len() {
                                entries@[i].1@
                            } else {
                                DatumView::Null
                            },
                        ),
                ),
            ),
        }
    }
}

/// The model of an optional value.
pub open spec fn view_of(value: Option<Datum>) -> Option<DatumView> {
    match value {
        Some(v) => Some(v@),
        None => None,
    }
}

impl Clone for Number {
    fn clone(&self) -> (r: Self)
        ensures
            r@ == self@,
    {
        match self {
            Number::Integer(n) => Number::Integer(*n),
            Number::Float(text) => Number::Float(text.clone()),
        }
    }
}

impl Clone for Datum {
    #[verifier::loop_isolation(false)]
    fn clone(&self) -> (r: Self)
        ensures
            r@ == self@,
        decreases self,
    {
        match self {
            Datum::Null => Datum::Null,
            Datum::Bool(b) => Datum::Bool(*b),
            Datum::Number(n) => Datum::Number(n.clone()),
            Datum::String(s) => Datum::String(s.clone()),
            Datum::Sequence(items) => {
                let mut copy: Vec<Datum> = Vec::new();
                let mut i: usize = 0;
                while i < items.len()
                    invariant
                        i <= items.len(),
                        copy.len() == i,
                        forall|j: int| 0 <= j < i ==> copy@[j]@ == items@[j]@,
                    decreases items.len() - i,
                {
                    copy.push(items[i].clone());
                    i += 1;
                }
                let r = Datum::Sequence(copy);
                assert(r@->Sequence_0 =~= self@->Sequence_0);
                r
            },
            Datum::Mapping(entries) => {
                let mut copy: Vec<(String, Datum)> = Vec::new();
                let mut i: usize = 0;
                while i < entries.len()
                    invariant
                        i <= entries.len(),
                        copy.len() == i,
                        forall|j: int|
                            0 <= j < i ==> copy@[j].0@ == entries@[j].0@ && copy@[j].1@
                                == entries@[j].1@,
                    decreases entries.len() - i,
                {
                    copy.push((entries[i].0.clone(), entries[i].1.clone()));
                    i += 1;
                }
                let r = Datum::Mapping(copy);
                assert(r@->Mapping_0 =~= self@->Mapping_0);
                r
            },
        }
    }
}

impl From<i64> for Number {
    fn from(n: i64) -> (number: Self) {
        Number::Integer(n)
    }
}

impl FromSpecImpl<i64> for Number {
    open spec fn obeys_from_spec() -> bool {
        true
    }

    open spec fn from_spec(n: i64) -> Self {
        Number::Integer(n)
    }
}

} // verus!
