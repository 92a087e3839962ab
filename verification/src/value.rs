//! The tokens of a statement and the values an attribute can hold.
use vstd::prelude::*;
use vstd::string::*;
use vstd::std_specs::cmp::PartialEqSpecImpl;

verus! {

/// The subject token of a statement.
#[derive(Debug, PartialEq, Eq, Hash)]
pub struct Symbol {
    pub text: String,
}

/// The verb token of a statement.
#[derive(Debug, PartialEq, Eq, Hash)]
pub struct ActiveWord {
    pub text: String,
}

impl View for Symbol {
    type V = Seq<char>;

    open spec fn view(&self) -> Seq<char> {
        self.text@
    }
}

impl View for ActiveWord {
    type V = Seq<char>;

    open spec fn view(&self) -> Seq<char> {
        self.text@
    }
}

impl Clone for Symbol {
    fn clone(&self) -> (copy: Self)
        ensures
            copy@ == self@,
    {
        Symbol { text: self.text.clone() }
    }
}

impl Clone for ActiveWord {
    fn clone(&self) -> (copy: Self)
        ensures
            copy@ == self@,
    {
        ActiveWord { text: self.text.clone() }
    }
}

impl Symbol {
    /// The symbol with the given text.
    pub fn new(text: &str) -> (symbol: Symbol)
        ensures
            symbol@ == text@,
    {
        Symbol { text: String::from_str(text) }
    }

    /// The text of this symbol.
    pub fn as_str(&self) -> (text: &str)
        ensures
            text@ == self@,
    {
        self.text.as_str()
    }

    /// Whether the text has no characters.
    pub fn is_empty(&self) -> (empty: bool)
        ensures
            empty == (self@.len() == 0),
    {
        self.text.as_str().is_empty()
    }
}

impl ActiveWord {
    /// The verb with the given text.
    pub fn new(text: &str) -> (word: ActiveWord)
        ensures
            word@ == text@,
    {
        ActiveWord { text: String::from_str(text) }
    }

    /// The text of this verb.
    pub fn as_str(&self) -> (text: &str)
        ensures
            text@ == self@,
    {
        self.text.as_str()
    }

    /// Whether the text has no characters.
    pub fn is_empty(&self) -> (empty: bool)
        ensures
            empty == (self@.len() == 0),
    {
        self.text.as_str().is_empty()
    }
}

/// What the attribute of a statement can hold.
#[derive(Debug)]
pub enum AnyValue {
    /// A symbol.
    Symbol(Symbol),
    /// A nested verb.
    Verb(ActiveWord),
    /// A signed integer scalar.
    Scalar(i64),
    /// A further structure: a list of values, which may nest.
    Structure(Vec<AnyValue>),
}

/// The mathematical content of an [`AnyValue`].
pub enum ValueView {
    Symbol(Seq<char>),
    Verb(Seq<char>),
    Scalar(i64),
    Structure(Seq<ValueView>),
}

/// The content of `v`: tokens by their text, a structure by the contents
/// of its items in order.
pub open spec fn value_view(v: AnyValue) -> ValueView
    decreases v,
{
    match v {
        AnyValue::Symbol(symbol) => ValueView::Symbol(symbol@),
        AnyValue::Verb(word) => ValueView::Verb(word@),
        AnyValue::Scalar(n) => ValueView::Scalar(n),
        AnyValue::Structure(items) => ValueView::Structure(
            Seq::new(
                items@.len(),
                |i: int|
                    if 0 <= i < items@.len() {
                        value_view(items@[i])
                    } else {
                        ValueView::Scalar(0)
                    },
            ),
        ),
    }
}

impl View for AnyValue {
    type V = ValueView;

    open spec fn view(&self) -> ValueView {
        value_view(*self)
    }
}

/// The views of a list of values, item by item.
pub open spec fn views_of(items: Seq<AnyValue>) -> Seq<ValueView> {
    Seq::new(items.len(), |i: int| items[i]@)
}

/// A structure's view is the list of its items' views.
pub proof fn structure_view(items: Vec<AnyValue>)
    ensures
        AnyValue::Structure(items)@ == ValueView::Structure(views_of(items@)),
{
    reveal_with_fuel(value_view, 2);
    assert(AnyValue::Structure(items)@->Structure_0 =~= views_of(items@));
}

impl AnyValue {
    /// A symbol value with the given text.
    pub fn symbol(text: &str) -> (v: AnyValue)
        ensures
            v@ == ValueView::Symbol(text@),
    {
        AnyValue::Symbol(Symbol::new(text))
    }

    /// A verb value with the given text.
    pub fn verb(text: &str) -> (v: AnyValue)
        ensures
            v@ == ValueView::Verb(text@),
    {
        AnyValue::Verb(ActiveWord::new(text))
    }

    /// A scalar value.
    pub fn scalar(n: i64) -> (v: AnyValue)
        ensures
            v@ == ValueView::Scalar(n),
    {
        AnyValue::Scalar(n)
    }

    /// A structure that holds the given values in order.
    pub fn structure(items: Vec<AnyValue>) -> (v: AnyValue)
        ensures
            v@ == ValueView::Structure(views_of(items@)),
    {
        proof {
            structure_view(items);
        }
        AnyValue::Structure(items)
    }
}

impl Clone for AnyValue {
    fn clone(&self) -> (copy: Self)
        ensures
            copy@ == self@,
        decreases self,
    {
        match self {
            AnyValue::Symbol(symbol) => AnyValue::Symbol(symbol.clone()),
            AnyValue::Verb(word) => AnyValue::Verb(word.clone()),
            AnyValue::Scalar(n) => AnyValue::Scalar(*n),
            AnyValue::Structure(items) => {
                proof {
                    structure_view(*items);
                }
                let mut copies: Vec<AnyValue> = Vec::new();
                let mut i: usize = 0;
                while i < items.len()
                    invariant
                        0 <= i <= items.len(),
                        copies@.len() == i,
                        *self == AnyValue::Structure(*items),
                        forall|j: int| 0 <= j < i ==> (#[trigger] copies@[j])@ == items@[j]@,
                    decreases items.len() - i,
                {
                    assert(self->Structure_0 == *items);
                    copies.push(items[i].clone());
                    i += 1;
                }
                proof {
                    structure_view(copies);
                    assert(views_of(copies@) =~= views_of(items@));
                }
                AnyValue::Structure(copies)
            },
        }
    }
}

impl PartialEq for AnyValue {
    fn eq(&self, other: &Self) -> (same: bool)
        decreases self,
    {
        match (self, other) {
            (AnyValue::Symbol(a), AnyValue::Symbol(b)) => a.text == b.text,
            (AnyValue::Verb(a), AnyValue::Verb(b)) => a.text == b.text,
            (AnyValue::Scalar(a), AnyValue::Scalar(b)) => *a == *b,
            (AnyValue::Structure(a), AnyValue::Structure(b)) => {
                proof {
                    structure_view(*a);
                    structure_view(*b);
                }
                if a.len() != b.len() {
                    assert(views_of(a@).len() != views_of(b@).len());
                    return false;
                }
                let mut i: usize = 0;
                while i < a.len()
                    invariant
                        0 <= i <= a.len(),
                        a.len() == b.len(),
                        *self == AnyValue::Structure(*a),
                        self@ == ValueView::Structure(views_of(a@)),
                        other@ == ValueView::Structure(views_of(b@)),
                        forall|j: int| 0 <= j < i ==> (#[trigger] a@[j])@ == b@[j]@,
                    decreases a.len() - i,
                {
                    if !a[i].eq(&b[i]) {
                        assert(views_of(a@)[i as int] != views_of(b@)[i as int]);
                        return false;
                    }
                    i += 1;
                }
                assert(views_of(a@) =~= views_of(b@));
                true
            },
            _ => false,
        }
    }
}

impl PartialEqSpecImpl for AnyValue {
    open spec fn obeys_eq_spec() -> bool {
        true
    }

    open spec fn eq_spec(&self, other: &Self) -> bool {
        self@ == other@
    }
}

impl Eq for AnyValue {

}

} // verus!
