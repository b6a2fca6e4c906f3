//! The value and type model: the closed set of value shapes a variable can
//! declare, the type tags that constrain them, lifecycle metadata, and the
//! canonical text rendering of each.

use vstd::prelude::*;
use vstd::string::StringExecFns;

use crate::text::dec_int;
use crate::text::isize_text;

verus! {

/// A value a variable can hold: an integer, a text, or an ordered list of
/// texts. Equality is structural; there is no coercion between variants.
#[derive(Debug, Clone)]
pub enum Value {
    Number(isize),
    String(String),
    List(Vec<String>),
}

/// The mathematical model of a [`Value`].
pub enum ValueModel {
    Number(int),
    Text(Seq<char>),
    List(Seq<Seq<char>>),
}

impl View for Value {
    type V = ValueModel;

    open spec fn view(&self) -> ValueModel {
        match self {
            Value::Number(n) => ValueModel::Number(*n as int),
            Value::String(s) => ValueModel::Text(s@),
            Value::List(l) => ValueModel::List(l.deep_view()),
        }
    }
}

impl DeepView for Value {
    type V = ValueModel;

    open spec fn deep_view(&self) -> ValueModel {
        self.view()
    }
}

/// The quoted form of one list element.
pub open spec fn quoted(s: Seq<char>) -> Seq<char> {
    "\""@ + s + "\""@
}

/// The elements of a list, each quoted, joined by a comma and a space.
pub open spec fn comma_joined(l: Seq<Seq<char>>) -> Seq<char>
    decreases l.len(),
{
    if l.len() == 0 {
        Seq::empty()
    } else if l.len() == 1 {
        quoted(l[0])
    } else {
        comma_joined(l.drop_last()) + ", "@ + quoted(l.last())
    }
}

/// The canonical text of a list value: bracketed, comma-separated, quoted.
pub open spec fn list_text(l: Seq<Seq<char>>) -> Seq<char> {
    "["@ + comma_joined(l) + "]"@
}

/// The canonical text of a value: decimal digits for a number, the text
/// verbatim for a string, the bracketed form for a list.
pub open spec fn value_text(v: ValueModel) -> Seq<char> {
    match v {
        ValueModel::Number(n) => dec_int(n),
        ValueModel::Text(s) => s,
        ValueModel::List(l) => list_text(l),
    }
}

impl Value {
    /// Renders the canonical text of this value.
    pub fn to_text(&self) -> (r: String)
        ensures
            r@ == value_text(self@),
    {
        match self {
            Value::Number(n) => isize_text(*n),
            Value::String(s) => s.clone(),
            Value::List(l) => {
                let mut r = String::new();
                r.append("[");
                let mut i: usize = 0;
                while i < l.len()
                    invariant
                        i <= l@.len(),
                        r@ =~= "["@ + comma_joined(l.deep_view().subrange(0, i as int)),
                    decreases l@.len() - i,
                {
                    if i > 0 {
                        r.append(", ");
                    }
                    r.append("\"");
                    r.append(l[i].as_str());
                    r.append("\"");
                    proof {
                        let all = l.deep_view();
                        assert(all.subrange(0, i + 1).drop_last() =~= all.subrange(0, i as int));
                        assert(all.subrange(0, i + 1).last() == all[i as int]);
                    }
                    i = i + 1;
                }
                r.append("]");
                proof {
                    assert(l.deep_view().subrange(0, l.deep_view().len() as int) =~= l.deep_view());
                    assert(r@ =~= list_text(l.deep_view()));
                }
                r
            },
        }
    }

    /// Builds a value with the same structure and contents.
    pub fn duplicate(&self) -> (r: Value)
        ensures
            r@ == self@,
    {
        match self {
            Value::Number(n) => Value::Number(*n),
            Value::String(s) => Value::String(s.clone()),
            Value::List(l) => {
                let mut out: Vec<String> = Vec::new();
                let mut i: usize = 0;
                while i < l.len()
                    invariant
                        i <= l@.len(),
                        out@ =~= l@.subrange(0, i as int),
                    decreases l@.len() - i,
                {
                    out.push(l[i].clone());
                    proof {
                        assert(out@ =~= l@.subrange(0, i + 1));
                    }
                    i = i + 1;
                }
                proof {
                    assert(out@ =~= l@);
                    assert(out.deep_view() =~= l.deep_view());
                }
                Value::List(out)
            },
        }
    }

    /// Decides structural equality of two values.
    pub fn equals(&self, other: &Value) -> (r: bool)
        ensures
            r == (self@ == other@),
    {
        match (self, other) {
            (Value::Number(a), Value::Number(b)) => *a == *b,
            (Value::String(a), Value::String(b)) => *a == *b,
            (Value::List(a), Value::List(b)) => {
                if a.len() != b.len() {
                    proof {
                        assert(a.deep_view().len() == a@.len());
                        assert(b.deep_view().len() == b@.len());
                    }
                    false
                } else {
                    let mut i: usize = 0;
                    let mut same = true;
                    while i < a.len()
                        invariant
                            i <= a@.len(),
                            a@.len() == b@.len(),
                            same == (a.deep_view().subrange(0, i as int) =~~= b.deep_view().subrange(
                                0,
                                i as int,
                            )),
                        decreases a@.len() - i,
                    {
                        if !(a[i] == b[i]) {
                            same = false;
                            proof {
                                assert(a.deep_view()[i as int] != b.deep_view()[i as int]);
                                assert(a.deep_view().subrange(0, i + 1)[i as int] != b.deep_view().subrange(
                                    0,
                                    i + 1,
                                )[i as int]);
                                assert(!(a.deep_view().subrange(0, a@.len() as int) =~~= b.deep_view().subrange(
                                    0,
                                    b@.len() as int,
                                )));
                            }
                            i = a.len();
                        } else {
                            proof {
                                assert(a.deep_view().subrange(0, i + 1).drop_last() =~= a.deep_view().subrange(
                                    0,
                                    i as int,
                                ));
                                assert(b.deep_view().subrange(0, i + 1).drop_last() =~= b.deep_view().subrange(
                                    0,
                                    i as int,
                                ));
                            }
                            i = i + 1;
                        }
                    }
                    proof {
                        assert(a.deep_view().subrange(0, a@.len() as int) =~= a.deep_view());
                        assert(b.deep_view().subrange(0, b@.len() as int) =~= b.deep_view());
                    }
                    same
                }
            },
            _ => false,
        }
    }
}

/// One allowed value of a variable, paired with a description of what the
/// value means. Only the value takes part in uniqueness checks.
#[derive(Debug, Clone)]
pub struct ValueEntry {
    /// The allowed value itself.
    pub value: Value,
    /// What choosing this value means.
    pub description: String,
}

/// The mathematical model of a [`ValueEntry`].
pub struct ValueEntryModel {
    pub value: ValueModel,
    pub description: Seq<char>,
}

impl View for ValueEntry {
    type V = ValueEntryModel;

    open spec fn view(&self) -> ValueEntryModel {
        ValueEntryModel { value: self.value@, description: self.description@ }
    }
}

impl DeepView for ValueEntry {
    type V = ValueEntryModel;

    open spec fn deep_view(&self) -> ValueEntryModel {
        self.view()
    }
}

/// The type tag of a variable: the required value shape and refinement.
#[derive(Debug, Clone, Copy, PartialEq, Eq, Structural)]
pub enum Type {
    Number,
    NonZeroNumber,
    NumberAsBool,
    String,
    NonEmptyString,
    List,
    NonEmptyList,
}

/// The display label of a type tag, as documentation shows it.
pub open spec fn type_label(t: Type) -> Seq<char> {
    match t {
        Type::Number => "Number"@,
        Type::NonZeroNumber => "Non-Zero Number"@,
        Type::NumberAsBool => "Number as Boolean"@,
        Type::String => "String"@,
        Type::NonEmptyString => "Non-Empty String"@,
        Type::List => "List"@,
        Type::NonEmptyList => "Non-Empty List"@,
    }
}

impl Type {
    /// Renders the display label of this type tag.
    pub fn label(&self) -> (r: String)
        ensures
            r@ == type_label(*self),
    {
        match self {
            Type::Number => String::from_str("Number"),
            Type::NonZeroNumber => String::from_str("Non-Zero Number"),
            Type::NumberAsBool => String::from_str("Number as Boolean"),
            Type::String => String::from_str("String"),
            Type::NonEmptyString => String::from_str("Non-Empty String"),
            Type::List => String::from_str("List"),
            Type::NonEmptyList => String::from_str("Non-Empty List"),
        }
    }
}

/// The lifecycle state of a variable. It is declared once and never changes.
#[derive(Debug, Clone)]
pub enum MetaInformation {
    /// The variable is actively in use.
    InUse,
    /// The variable should not be used any more.
    UsageDiscouraged,
    /// The variable is deprecated since the named version.
    Deprecated(String),
    /// The variable was removed in the named version.
    Removed(String),
}

/// The mathematical model of a [`MetaInformation`].
pub enum MetaModel {
    InUse,
    UsageDiscouraged,
    Deprecated(Seq<char>),
    Removed(Seq<char>),
}

impl View for MetaInformation {
    type V = MetaModel;

    open spec fn view(&self) -> MetaModel {
        match self {
            MetaInformation::InUse => MetaModel::InUse,
            MetaInformation::UsageDiscouraged => MetaModel::UsageDiscouraged,
            MetaInformation::Deprecated(v) => MetaModel::Deprecated(v@),
            MetaInformation::Removed(v) => MetaModel::Removed(v@),
        }
    }
}

impl DeepView for MetaInformation {
    type V = MetaModel;

    open spec fn deep_view(&self) -> MetaModel {
        self.view()
    }
}

impl Default for MetaInformation {
    /// A variable without declared lifecycle state is in use.
    fn default() -> (r: Self)
        ensures
            r@ == MetaModel::InUse,
    {
        MetaInformation::InUse
    }
}

/// The prose form of a lifecycle state.
pub open spec fn meta_text(m: MetaModel) -> Seq<char> {
    match m {
        MetaModel::InUse => "in use"@,
        MetaModel::UsageDiscouraged => "**Usage is discouraged**"@,
        MetaModel::Deprecated(v) => "**Deprecated** since version "@ + v,
        MetaModel::Removed(v) => "**Removed** in version "@ + v,
    }
}

impl MetaInformation {
    /// Renders the prose form of this lifecycle state.
    pub fn to_text(&self) -> (r: String)
        ensures
            r@ == meta_text(self@),
    {
        match self {
            MetaInformation::InUse => String::from_str("in use"),
            MetaInformation::UsageDiscouraged => String::from_str("**Usage is discouraged**"),
            MetaInformation::Deprecated(v) => {
                let mut r = String::from_str("**Deprecated** since version ");
                r.append(v.as_str());
                r
            },
            MetaInformation::Removed(v) => {
                let mut r = String::from_str("**Removed** in version ");
                r.append(v.as_str());
                r
            },
        }
    }
}

} // verus!
