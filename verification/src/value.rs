//! The generic structured value that payload fields carry.
//!
//! A [`Json`] value is a tree: null, a boolean, a number, a string, an array of
//! values, or an object, held as the list of its members. Contracts speak of
//! its mathematical model, [`JsonView`].

use vstd::prelude::*;

verus! {

/// A number: a non-negative integer, a negative integer, or any other
/// number, carried by its decimal text.
#[derive(Debug, PartialEq, Eq)]
pub enum Number {
    PosInt(u64),
    NegInt(i64),
    Float(String),
}

/// The mathematical model of a [`Number`].
pub enum NumberView {
    PosInt(u64),
    NegInt(i64),
    Float(Seq<char>),
}

impl View for Number {
    type V = NumberView;

    open spec fn view(&self) -> NumberView {
        match self {
            Number::PosInt(n) => NumberView::PosInt(*n),
            Number::NegInt(n) => NumberView::NegInt(*n),
            Number::Float(text) => NumberView::Float(text@),
        }
    }
}

impl Clone for Number {
    fn clone(&self) -> (r: Self)
        ensures
            r@ == self@,
    {
        match self {
            Number::PosInt(n) => Number::PosInt(*n),
            Number::NegInt(n) => Number::NegInt(*n),
            Number::Float(text) => Number::Float(text.clone()),
        }
    }
}

/// A tree-shaped structured value.
#[derive(Debug, PartialEq, Eq)]
pub enum Json {
    Null,
    Bool(bool),
    Number(Number),
    String(String),
    Array(Vec<Json>),
    Object(Vec<(String, Json)>),
}

/// The mathematical model of a [`Json`] value.
pub enum JsonView {
    Null,
    Bool(bool),
    Number(NumberView),
    String(Seq<char>),
    Array(Seq<JsonView>),
    Object(Seq<(Seq<char>, JsonView)>),
}

impl View for Json {
    type V = JsonView;

    open spec fn view(&self) -> JsonView
        decreases self,
    {
        match self {
            Json::Null => JsonView::Null,
            Json::Bool(b) => JsonView::Bool(*b),
            Json::Number(n) => JsonView::Number(n@),
            Json::String(s) => JsonView::String(s@),
            Json::Array(items) => JsonView::Array(
                Seq::new(
                    items.len() as nat,
                    |i: int|
                        if 0 <= i < items.len() {
                            items[i]@
                        } else {
                            JsonView::Null
                        },
                ),
            ),
            Json::Object(members) => JsonView::Object(
                Seq::new(
                    members.len() as nat,
                    |i: int|
                        if 0 <= i < members.len() {
                            (members[i].0@, members[i].1@)
                        } else {
                            (Seq::empty(), JsonView::Null)
                        },
                ),
            ),
        }
    }
}

impl DeepView for Json {
    type V = JsonView;

    open spec fn deep_view(&self) -> JsonView {
        self@
    }
}

impl JsonView {
    /// The value is an object.
    pub open spec fn is_object(self) -> bool {
        self is Object
    }

    /// The value can stand for positional arguments: an array, or null.
    pub open spec fn is_args(self) -> bool {
        self is Array || self is Null
    }

    /// The value can stand for keyword arguments: an object, or null.
    pub open spec fn is_kwargs(self) -> bool {
        self is Object || self is Null
    }

    /// The non-negative integer that the value holds, if it holds one.
    pub open spec fn as_u64(self) -> Option<u64> {
        match self {
            JsonView::Number(NumberView::PosInt(n)) => Some(n),
            _ => None,
        }
    }

    /// The string that the value holds, if it holds one.
    pub open spec fn as_str(self) -> Option<Seq<char>> {
        match self {
            JsonView::String(s) => Some(s),
            _ => None,
        }
    }
}

impl Clone for Json {
    fn clone(&self) -> (r: Self)
        ensures
            r@ == self@,
        decreases self,
    {
        match self {
            Json::Null => Json::Null,
            Json::Bool(b) => Json::Bool(*b),
            Json::Number(n) => Json::Number(n.clone()),
            Json::String(s) => Json::String(s.clone()),
            Json::Array(items) => {
                let mut copy: Vec<Json> = Vec::new();
                let mut i: usize = 0;
                while i < items.len()
                    invariant
                        *self == Json::Array(*items),
                        i <= items.len(),
                        copy.len() == i,
                        forall|j: int| 0 <= j < i ==> copy[j]@ == items[j]@,
                    decreases items.len() - i,
                {
                    assert(decreases_to!(self => self->Array_0[i as int]));
                    copy.push(items[i].clone());
                    i += 1;
                }
                let r = Json::Array(copy);
                assert(r@->Array_0 =~= self@->Array_0);
                r
            },
            Json::Object(members) => {
                let mut copy: Vec<(String, Json)> = Vec::new();
                let mut i: usize = 0;
                while i < members.len()
                    invariant
                        *self == Json::Object(*members),
                        i <= members.len(),
                        copy.len() == i,
                        forall|j: int|
                            0 <= j < i ==> copy[j].0@ == members[j].0@ && copy[j].1@
                                == members[j].1@,
                    decreases members.len() - i,
                {
                    assert(decreases_to!(self => self->Object_0[i as int].1));
                    copy.push((members[i].0.clone(), members[i].1.clone()));
                    i += 1;
                }
                let r = Json::Object(copy);
                assert(r@->Object_0 =~= self@->Object_0);
                r
            },
        }
    }
}

impl Json {
    /// Whether the value is null.
    pub fn is_null(&self) -> (b: bool)
        ensures
            b == (self@ is Null),
    {
        match self {
            Json::Null => true,
            _ => false,
        }
    }

    /// Whether the value is an array.
    pub fn is_array(&self) -> (b: bool)
        ensures
            b == (self@ is Array),
    {
        match self {
            Json::Array(_) => true,
            _ => false,
        }
    }

    /// Whether the value is an object.
    pub fn is_object(&self) -> (b: bool)
        ensures
            b == self@.is_object(),
    {
        match self {
            Json::Object(_) => true,
            _ => false,
        }
    }

    /// The non-negative integer that the value holds, if it holds one.
    pub fn as_u64(&self) -> (r: Option<u64>)
        ensures
            r == self@.as_u64(),
    {
        match self {
            Json::Number(Number::PosInt(n)) => Some(*n),
            _ => None,
        }
    }

    /// The string that the value holds, if it holds one.
    pub fn as_str(&self) -> (r: Option<&str>)
        ensures
            match r {
                Some(s) => self@.as_str() == Some(s@),
                None => self@.as_str() is None,
            },
    {
        match self {
            Json::String(s) => Some(s.as_str()),
            _ => None,
        }
    }

    /// The value of an unsigned integer.
    pub fn unsigned(n: u64) -> (r: Json)
        ensures
            r@ == JsonView::Number(NumberView::PosInt(n)),
    {
        Json::Number(Number::PosInt(n))
    }

    /// The empty array.
    pub fn empty_array() -> (r: Json)
        ensures
            r@ == JsonView::Array(Seq::empty()),
    {
        let r = Json::Array(Vec::new());
        assert(r@->Array_0 =~= Seq::empty());
        r
    }
}

/// The model of an array is the sequence of the models of its items.
pub proof fn lemma_array_view(items: Vec<Json>)
    ensures
        Json::Array(items)@ == JsonView::Array(items.deep_view()),
{
    reveal_with_fuel(<Json as View>::view, 2);
    assert(Json::Array(items)@->Array_0 =~= items.deep_view());
}

/// A deep copy of a sequence of values.
pub fn clone_sequence(items: &Vec<Json>) -> (r: Vec<Json>)
    ensures
        r.deep_view() == items.deep_view(),
{
    let mut copy: Vec<Json> = Vec::new();
    let mut i: usize = 0;
    while i < items.len()
        invariant
            i <= items.len(),
            copy.len() == i,
            forall|j: int| 0 <= j < i ==> copy[j]@ == items[j]@,
        decreases items.len() - i,
    {
        copy.push(items[i].clone());
        i += 1;
    }
    assert(copy.deep_view() =~= items.deep_view());
    copy
}

} // verus!
