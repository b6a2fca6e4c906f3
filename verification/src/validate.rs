//! The validation engine: the rules that decide whether a declared
//! variable's name, type, allowed values, and default are mutually
//! consistent, and the first error a schema produces when they are not.
//!
//! Validation is fail-fast: per variable the checks run in a fixed order
//! (name well-formedness, field lengths, type/value agreement, uniqueness
//! of allowed values, default containment) and the first failing check
//! wins; across a schema the first failing variable wins.

use vstd::prelude::*;
use vstd::string::StrSliceExecFns;
use vstd::string::StringExecFns;

use crate::schema::Categories;
use crate::schema::Variable;
use crate::schema::VariableModel;
use crate::schema::Variables;
use crate::text::dec_int;
use crate::text::usize_text;
use crate::value::Type;
use crate::value::Value;
use crate::value::ValueEntryModel;
use crate::value::ValueModel;
use crate::value::value_text;

verus! {

/// What a declared value was expected to be, when its shape or refinement
/// does not agree with the variable's type tag.
#[derive(Debug, Clone, Copy, PartialEq, Eq, Structural)]
pub enum Expectation {
    /// The type tag requires a number.
    Number,
    /// The type tag requires a number bigger than zero.
    Positive,
    /// The type tag requires the number zero or one.
    ZeroOrOne,
    /// The type tag requires a string.
    Text,
    /// The type tag requires a non-empty string.
    NonEmptyText,
    /// The type tag requires a list.
    List,
    /// The type tag requires a non-empty list.
    NonEmptyList,
}

/// A schema self-check failure. Each variant names the variable it comes
/// from and the rule it violates; validation surfaces the first one found.
#[derive(Debug)]
pub enum CheckError {
    /// The variable's name contains a space character.
    NameWhitespace { name: String },
    /// The variable's name contains an ASCII character that is neither an
    /// underscore nor an upper-case letter.
    NameLowercase { name: String },
    /// The variable's name contains a non-ASCII character.
    NameNonAscii { name: String },
    /// The variable's name is empty.
    NameEmpty,
    /// The variable's description is empty.
    DescriptionEmpty { name: String },
    /// A declared value does not match the shape or refinement the type
    /// tag requires; `index` is its position among the allowed values.
    WrongShape { name: String, index: usize, value: Value, expected: Expectation },
    /// Two allowed values of the variable are structurally equal.
    DuplicateValues { name: String },
    /// The default is not among the declared allowed values.
    DefaultNotAllowed { name: String, default: Value },
}

/// The mathematical model of a [`CheckError`].
pub enum CheckErrorModel {
    NameWhitespace { name: Seq<char> },
    NameLowercase { name: Seq<char> },
    NameNonAscii { name: Seq<char> },
    NameEmpty,
    DescriptionEmpty { name: Seq<char> },
    WrongShape { name: Seq<char>, index: int, value: ValueModel, expected: Expectation },
    DuplicateValues { name: Seq<char> },
    DefaultNotAllowed { name: Seq<char>, default: ValueModel },
}

impl View for CheckError {
    type V = CheckErrorModel;

    open spec fn view(&self) -> CheckErrorModel {
        match self {
            CheckError::NameWhitespace { name } => CheckErrorModel::NameWhitespace {
                name: name@,
            },
            CheckError::NameLowercase { name } => CheckErrorModel::NameLowercase { name: name@ },
            CheckError::NameNonAscii { name } => CheckErrorModel::NameNonAscii { name: name@ },
            CheckError::NameEmpty => CheckErrorModel::NameEmpty,
            CheckError::DescriptionEmpty { name } => CheckErrorModel::DescriptionEmpty {
                name: name@,
            },
            CheckError::WrongShape { name, index, value, expected } => CheckErrorModel::WrongShape {
                name: name@,
                index: *index as int,
                value: value@,
                expected: *expected,
            },
            CheckError::DuplicateValues { name } => CheckErrorModel::DuplicateValues {
                name: name@,
            },
            CheckError::DefaultNotAllowed { name, default } => CheckErrorModel::DefaultNotAllowed {
                name: name@,
                default: default@,
            },
        }
    }
}

/// The prose tail of a shape error: what the value was expected to be.
pub open spec fn expectation_text(e: Expectation) -> Seq<char> {
    match e {
        Expectation::Number => "be a number"@,
        Expectation::Positive => "be bigger than '0'"@,
        Expectation::ZeroOrOne => "be '0' or '1'"@,
        Expectation::Text => "be a string"@,
        Expectation::NonEmptyText => "be non-empty string"@,
        Expectation::List => "be a list"@,
        Expectation::NonEmptyList => "be a non-empty list"@,
    }
}

/// The diagnostic text of a self-check failure.
pub open spec fn error_text(e: CheckErrorModel) -> Seq<char> {
    match e {
        CheckErrorModel::NameWhitespace { name } => "Name of '"@ + name
            + "' contains whitespaces"@,
        CheckErrorModel::NameLowercase { name } => "Name of '"@ + name
            + "' contains lowercase letters"@,
        CheckErrorModel::NameNonAscii { name } => "Name of '"@ + name
            + "' contains non ASCII-alphabetic letters"@,
        CheckErrorModel::NameEmpty => "A variable has an empty name"@,
        CheckErrorModel::DescriptionEmpty { name } => "Description of '"@ + name + "' is empty"@,
        CheckErrorModel::WrongShape { name, index, value, expected } => "Value '"@ + value_text(
            value,
        ) + "' in "@ + name + ".values["@ + dec_int(index) + "].value was expected to "@
            + expectation_text(expected),
        CheckErrorModel::DuplicateValues { name } => "Values of '"@ + name + "' are not unique"@,
        CheckErrorModel::DefaultNotAllowed { name, default } => "Default value '"@ + value_text(
            default,
        ) + "' is not contained in "@ + name + ".values"@,
    }
}

impl CheckError {
    /// Renders the diagnostic text of this failure.
    pub fn message(&self) -> (r: String)
        ensures
            r@ == error_text(self@),
    {
        match self {
            CheckError::NameWhitespace { name } => {
                let mut r = String::from_str("Name of '");
                r.append(name.as_str());
                r.append("' contains whitespaces");
                proof {
                    assert(r@ =~= error_text(self@));
                }
                r
            },
            CheckError::NameLowercase { name } => {
                let mut r = String::from_str("Name of '");
                r.append(name.as_str());
                r.append("' contains lowercase letters");
                proof {
                    assert(r@ =~= error_text(self@));
                }
                r
            },
            CheckError::NameNonAscii { name } => {
                let mut r = String::from_str("Name of '");
                r.append(name.as_str());
                r.append("' contains non ASCII-alphabetic letters");
                proof {
                    assert(r@ =~= error_text(self@));
                }
                r
            },
            CheckError::NameEmpty => String::from_str("A variable has an empty name"),
            CheckError::DescriptionEmpty { name } => {
                let mut r = String::from_str("Description of '");
                r.append(name.as_str());
                r.append("' is empty");
                proof {
                    assert(r@ =~= error_text(self@));
                }
                r
            },
            CheckError::WrongShape { name, index, value, expected } => {
                let mut r = String::from_str("Value '");
                let value_part = value.to_text();
                r.append(value_part.as_str());
                r.append("' in ");
                r.append(name.as_str());
                r.append(".values[");
                let index_part = usize_text(*index);
                r.append(index_part.as_str());
                r.append("].value was expected to ");
                let tail = match expected {
                    Expectation::Number => "be a number",
                    Expectation::Positive => "be bigger than '0'",
                    Expectation::ZeroOrOne => "be '0' or '1'",
                    Expectation::Text => "be a string",
                    Expectation::NonEmptyText => "be non-empty string",
                    Expectation::List => "be a list",
                    Expectation::NonEmptyList => "be a non-empty list",
                };
                r.append(tail);
                proof {
                    assert(r@ =~= error_text(self@));
                }
                r
            },
            CheckError::DuplicateValues { name } => {
                let mut r = String::from_str("Values of '");
                r.append(name.as_str());
                r.append("' are not unique");
                proof {
                    assert(r@ =~= error_text(self@));
                }
                r
            },
            CheckError::DefaultNotAllowed { name, default } => {
                let mut r = String::from_str("Default value '");
                let value_part = default.to_text();
                r.append(value_part.as_str());
                r.append("' is not contained in ");
                r.append(name.as_str());
                r.append(".values");
                proof {
                    assert(r@ =~= error_text(self@));
                }
                r
            },
        }
    }
}

/// A character is valid in a variable name: an underscore or an upper-case
/// ASCII letter.
pub open spec fn name_char_ok(c: char) -> bool {
    c == '_' || ('A' <= c && c <= 'Z')
}

/// Scans a name from position `i` for a character that is not allowed,
/// and classifies the first one found: an ASCII character gives the
/// lowercase error, any other character the non-ASCII error.
pub open spec fn name_scan(name: Seq<char>, i: int) -> Option<CheckErrorModel>
    decreases name.len() - i,
{
    if !(0 <= i < name.len()) {
        None
    } else if name_char_ok(name[i]) {
        name_scan(name, i + 1)
    } else if (name[i] as u32) < 128 {
        Some(CheckErrorModel::NameLowercase { name })
    } else {
        Some(CheckErrorModel::NameNonAscii { name })
    }
}

/// The error a name produces: a whitespace error if it contains a space,
/// otherwise the classification of its first disallowed character.
pub open spec fn name_error(name: Seq<char>) -> Option<CheckErrorModel> {
    if name.contains(' ') {
        Some(CheckErrorModel::NameWhitespace { name })
    } else {
        name_scan(name, 0)
    }
}

/// The error the length rules produce: name and description must both be
/// non-empty.
pub open spec fn length_error(v: VariableModel) -> Option<CheckErrorModel> {
    if v.name.len() == 0 {
        Some(CheckErrorModel::NameEmpty)
    } else if v.description.len() == 0 {
        Some(CheckErrorModel::DescriptionEmpty { name: v.name })
    } else {
        None
    }
}

/// Whether a value matches the shape and refinement a type tag requires.
pub open spec fn shape_ok(t: Type, v: ValueModel) -> bool {
    match t {
        Type::Number => v is Number,
        Type::NonZeroNumber => v is Number && v->Number_0 > 0,
        Type::NumberAsBool => v is Number && (v->Number_0 == 0 || v->Number_0 == 1),
        Type::String => v is Text,
        Type::NonEmptyString => v is Text && v->Text_0.len() > 0,
        Type::List => v is List,
        Type::NonEmptyList => v is List && v->List_0.len() > 0,
    }
}

/// What a mismatching value was expected to be: the refinement where only
/// the refinement failed, the bare shape otherwise.
pub open spec fn expectation_of(t: Type, v: ValueModel) -> Expectation {
    match t {
        Type::Number => Expectation::Number,
        Type::NonZeroNumber => if v is Number {
            Expectation::Positive
        } else {
            Expectation::Number
        },
        Type::NumberAsBool => if v is Number {
            Expectation::ZeroOrOne
        } else {
            Expectation::Number
        },
        Type::String => Expectation::Text,
        Type::NonEmptyString => if v is Text {
            Expectation::NonEmptyText
        } else {
            Expectation::Text
        },
        Type::List => Expectation::List,
        Type::NonEmptyList => if v is List {
            Expectation::NonEmptyList
        } else {
            Expectation::List
        },
    }
}

/// Scans the allowed values from position `i` for the first one whose
/// shape or refinement does not agree with the type tag.
pub open spec fn shape_scan(
    name: Seq<char>,
    t: Type,
    entries: Seq<ValueEntryModel>,
    i: int,
) -> Option<CheckErrorModel>
    decreases entries.len() - i,
{
    if !(0 <= i < entries.len()) {
        None
    } else if shape_ok(t, entries[i].value) {
        shape_scan(name, t, entries, i + 1)
    } else {
        Some(
            CheckErrorModel::WrongShape {
                name,
                index: i,
                value: entries[i].value,
                expected: expectation_of(t, entries[i].value),
            },
        )
    }
}

/// The error the type/value agreement rule produces.
pub open spec fn shape_error(v: VariableModel) -> Option<CheckErrorModel> {
    match v.values {
        Option::Some(entries) => shape_scan(v.name, v.typ, entries, 0),
        Option::None => None,
    }
}

/// Whether the declared values are pairwise structurally distinct; their
/// descriptions play no part.
pub open spec fn values_distinct(entries: Seq<ValueEntryModel>) -> bool {
    forall|i: int, j: int|
        0 <= i < j < entries.len() ==> #[trigger] entries[i].value != #[trigger] entries[j].value
}

/// The error the uniqueness rule produces.
pub open spec fn unique_error(v: VariableModel) -> Option<CheckErrorModel> {
    match v.values {
        Option::Some(entries) => if values_distinct(entries) {
            None
        } else {
            Some(CheckErrorModel::DuplicateValues { name: v.name })
        },
        Option::None => None,
    }
}

/// Whether a default value is structurally among the declared values.
pub open spec fn default_contained(d: ValueModel, entries: Seq<ValueEntryModel>) -> bool {
    exists|i: int| 0 <= i < entries.len() && #[trigger] entries[i].value == d
}

/// The error the default containment rule produces: a present default must
/// equal one of the declared values. Without declared values the rule is
/// vacuously satisfied, whatever the default's shape.
pub open spec fn default_error(v: VariableModel) -> Option<CheckErrorModel> {
    match v.default {
        Option::Some(d) => match v.values {
            Option::Some(entries) => if default_contained(d, entries) {
                None
            } else {
                Some(CheckErrorModel::DefaultNotAllowed { name: v.name, default: d })
            },
            Option::None => None,
        },
        Option::None => None,
    }
}

/// The first error a variable produces, in the fixed check order.
pub open spec fn variable_error(v: VariableModel) -> Option<CheckErrorModel> {
    if name_error(v.name) is Some {
        name_error(v.name)
    } else if length_error(v) is Some {
        length_error(v)
    } else if shape_error(v) is Some {
        shape_error(v)
    } else if unique_error(v) is Some {
        unique_error(v)
    } else {
        default_error(v)
    }
}

/// The first error among a sequence of variables, scanning from `i`.
pub open spec fn variables_scan(vs: Seq<VariableModel>, i: int) -> Option<CheckErrorModel>
    decreases vs.len() - i,
{
    if !(0 <= i < vs.len()) {
        None
    } else if variable_error(vs[i]) is Some {
        variable_error(vs[i])
    } else {
        variables_scan(vs, i + 1)
    }
}

/// The first error among a sequence of variables.
pub open spec fn variables_error(vs: Seq<VariableModel>) -> Option<CheckErrorModel> {
    variables_scan(vs, 0)
}

/// The first error among the categories of a schema, scanning from `i`.
pub open spec fn categories_scan(
    cs: Seq<crate::schema::CategoryModel>,
    i: int,
) -> Option<CheckErrorModel>
    decreases cs.len() - i,
{
    if !(0 <= i < cs.len()) {
        None
    } else if variables_error(cs[i].variables) is Some {
        variables_error(cs[i].variables)
    } else {
        categories_scan(cs, i + 1)
    }
}

/// The first error a whole schema produces.
pub open spec fn categories_error(cs: Seq<crate::schema::CategoryModel>) -> Option<
    CheckErrorModel,
> {
    categories_scan(cs, 0)
}

fn shape_check(t: Type, v: &Value) -> (r: bool)
    ensures
        r == shape_ok(t, v@),
{
    match t {
        Type::Number => matches!(v, Value::Number(_)),
        Type::NonZeroNumber => match v {
            Value::Number(n) => *n > 0,
            _ => false,
        },
        Type::NumberAsBool => match v {
            Value::Number(n) => *n == 0 || *n == 1,
            _ => false,
        },
        Type::String => matches!(v, Value::String(_)),
        Type::NonEmptyString => match v {
            Value::String(s) => !s.as_str().is_empty(),
            _ => false,
        },
        Type::List => matches!(v, Value::List(_)),
        Type::NonEmptyList => match v {
            Value::List(l) => l.len() > 0,
            _ => false,
        },
    }
}

fn expectation_check(t: Type, v: &Value) -> (r: Expectation)
    ensures
        r == expectation_of(t, v@),
{
    match t {
        Type::Number => Expectation::Number,
        Type::NonZeroNumber => match v {
            Value::Number(_) => Expectation::Positive,
            _ => Expectation::Number,
        },
        Type::NumberAsBool => match v {
            Value::Number(_) => Expectation::ZeroOrOne,
            _ => Expectation::Number,
        },
        Type::String => Expectation::Text,
        Type::NonEmptyString => match v {
            Value::String(_) => Expectation::NonEmptyText,
            _ => Expectation::Text,
        },
        Type::List => Expectation::List,
        Type::NonEmptyList => match v {
            Value::List(_) => Expectation::NonEmptyList,
            _ => Expectation::List,
        },
    }
}

impl Variable {
    /// Checks that the name contains no space and only underscores and
    /// upper-case ASCII letters, classifying the first offender.
    pub fn name_is_valid(&self) -> (r: Result<(), CheckError>)
        ensures
            r is Ok <==> name_error(self@.name) is None,
            r is Err ==> name_error(self@.name) == Some(r->Err_0@),
    {
        let s = self.name.as_str();
        let len = s.unicode_len();
        let mut i: usize = 0;
        while i < len
            invariant
                len == self.name@.len(),
                i <= len,
                s@ == self.name@,
                forall|j: int| 0 <= j < i ==> self.name@[j] != ' ',
            decreases len - i,
        {
            if s.get_char(i) == ' ' {
                proof {
                    assert(self.name@.contains(' '));
                }
                return Err(CheckError::NameWhitespace { name: self.name.clone() });
            }
            i = i + 1;
        }
        proof {
            assert(!self.name@.contains(' '));
        }
        let mut i: usize = 0;
        while i < len
            invariant
                len == self.name@.len(),
                i <= len,
                s@ == self.name@,
                !self.name@.contains(' '),
                name_scan(self.name@, 0) == name_scan(self.name@, i as int),
            decreases len - i,
        {
            let c = s.get_char(i);
            if c == '_' || (c >= 'A' && c <= 'Z') {
                proof {
                    assert(name_scan(self.name@, i as int) == name_scan(self.name@, i + 1));
                }
                i = i + 1;
            } else if (c as u32) < 128 {
                return Err(CheckError::NameLowercase { name: self.name.clone() });
            } else {
                return Err(CheckError::NameNonAscii { name: self.name.clone() });
            }
        }
        Ok(())
    }

    /// Checks that name and description are both non-empty.
    pub fn lengths_are_valid(&self) -> (r: Result<(), CheckError>)
        ensures
            r is Ok <==> length_error(self@) is None,
            r is Err ==> length_error(self@) == Some(r->Err_0@),
    {
        if self.name.as_str().is_empty() {
            return Err(CheckError::NameEmpty);
        }
        if self.description.as_str().is_empty() {
            return Err(CheckError::DescriptionEmpty { name: self.name.clone() });
        }
        Ok(())
    }

    /// Checks every declared value against the shape and refinement the
    /// type tag requires, reporting the first mismatch with its position.
    pub fn correct_type_of_values(&self) -> (r: Result<(), CheckError>)
        ensures
            r is Ok <==> shape_error(self@) is None,
            r is Err ==> shape_error(self@) == Some(r->Err_0@),
    {
        match &self.values {
            Option::None => Ok(()),
            Option::Some(values) => {
                let ghost entries = values.deep_view();
                let mut i: usize = 0;
                while i < values.len()
                    invariant
                        entries == values.deep_view(),
                        self@.values == Option::Some(entries),
                        i <= entries.len(),
                        entries.len() == values@.len(),
                        shape_scan(self@.name, self@.typ, entries, 0) == shape_scan(
                            self@.name,
                            self@.typ,
                            entries,
                            i as int,
                        ),
                    decreases entries.len() - i,
                {
                    let entry = &values[i];
                    if shape_check(self.typ, &entry.value) {
                        proof {
                            assert(shape_scan(self@.name, self@.typ, entries, i as int)
                                == shape_scan(self@.name, self@.typ, entries, i + 1));
                        }
                        i = i + 1;
                    } else {
                        return Err(
                            CheckError::WrongShape {
                                name: self.name.clone(),
                                index: i,
                                value: entry.value.duplicate(),
                                expected: expectation_check(self.typ, &entry.value),
                            },
                        );
                    }
                }
                Ok(())
            },
        }
    }

    /// Checks that no two declared values are structurally equal; the
    /// descriptions beside them play no part.
    pub fn values_are_unique(&self) -> (r: Result<(), CheckError>)
        ensures
            r is Ok <==> unique_error(self@) is None,
            r is Err ==> unique_error(self@) == Some(r->Err_0@),
    {
        match &self.values {
            Option::None => Ok(()),
            Option::Some(values) => {
                let ghost entries = values.deep_view();
                let mut i: usize = 0;
                while i < values.len()
                    invariant
                        entries == values.deep_view(),
                        self@.values == Option::Some(entries),
                        i <= entries.len(),
                        entries.len() == values@.len(),
                        forall|p: int, q: int|
                            0 <= p < q < i ==> #[trigger] entries[p].value != #[trigger] entries[q].value,
                    decreases entries.len() - i,
                {
                    let mut j: usize = 0;
                    while j < i
                        invariant
                            entries == values.deep_view(),
                            self@.values == Option::Some(entries),
                            j <= i < entries.len(),
                            entries.len() == values@.len(),
                            forall|p: int, q: int|
                                0 <= p < q < i ==> #[trigger] entries[p].value != #[trigger] entries[q].value,
                            forall|p: int| 0 <= p < j ==> #[trigger] entries[p].value != entries[i as int].value,
                        decreases i - j,
                    {
                        if values[j].value.equals(&values[i].value) {
                            proof {
                                assert(entries[j as int].value == values@[j as int].value@);
                                assert(entries[i as int].value == values@[i as int].value@);
                                assert(entries[j as int].value == entries[i as int].value);
                                assert(!values_distinct(entries));
                            }
                            return Err(CheckError::DuplicateValues { name: self.name.clone() });
                        }
                        j = j + 1;
                    }
                    i = i + 1;
                }
                proof {
                    assert(values_distinct(entries));
                }
                Ok(())
            },
        }
    }

    /// Checks that a present default equals one of the declared values;
    /// without declared values the check passes whatever the default is.
    pub fn default_is_in_value(&self) -> (r: Result<(), CheckError>)
        ensures
            r is Ok <==> default_error(self@) is None,
            r is Err ==> default_error(self@) == Some(r->Err_0@),
    {
        match (&self.default, &self.values) {
            (Option::Some(d), Option::Some(values)) => {
                let ghost entries = values.deep_view();
                let mut i: usize = 0;
                while i < values.len()
                    invariant
                        entries == values.deep_view(),
                        self@.values == Option::Some(entries),
                        self@.default == Option::Some(d@),
                        i <= entries.len(),
                        entries.len() == values@.len(),
                        forall|p: int| 0 <= p < i ==> #[trigger] entries[p].value != d@,
                    decreases entries.len() - i,
                {
                    if values[i].value.equals(d) {
                        proof {
                            assert(entries[i as int].value == values@[i as int].value@);
                            assert(entries[i as int].value == d@);
                            assert(default_contained(d@, entries));
                        }
                        return Ok(());
                    }
                    i = i + 1;
                }
                Err(
                    CheckError::DefaultNotAllowed {
                        name: self.name.clone(),
                        default: d.duplicate(),
                    },
                )
            },
            _ => Ok(()),
        }
    }

    /// Runs every check of this variable in the fixed order and returns
    /// the first failure.
    pub fn additional_self_check(&self) -> (r: Result<(), CheckError>)
        ensures
            r is Ok <==> variable_error(self@) is None,
            r is Err ==> variable_error(self@) == Some(r->Err_0@),
    {
        self.name_is_valid()?;
        self.lengths_are_valid()?;
        self.correct_type_of_values()?;
        self.values_are_unique()?;
        self.default_is_in_value()?;
        Ok(())
    }
}

impl Variables {
    /// Checks every variable in declaration order and returns the first
    /// failure.
    pub fn perform_self_check(&self) -> (r: Result<(), CheckError>)
        ensures
            r is Ok <==> variables_error(self@) is None,
            r is Err ==> variables_error(self@) == Some(r->Err_0@),
    {
        let ghost vs = self@;
        let mut i: usize = 0;
        while i < self.0.len()
            invariant
                vs == self@,
                i <= vs.len(),
                vs.len() == self.0@.len(),
                variables_scan(vs, 0) == variables_scan(vs, i as int),
            decreases vs.len() - i,
        {
            match self.0[i].additional_self_check() {
                Ok(_) => {
                    proof {
                        assert(variables_scan(vs, i as int) == variables_scan(vs, i + 1));
                    }
                    i = i + 1;
                },
                Err(e) => {
                    return Err(e);
                },
            }
        }
        Ok(())
    }
}

impl Categories {
    /// Checks every category's variables in declaration order and returns
    /// the first failure.
    pub fn perform_self_check(&self) -> (r: Result<(), CheckError>)
        ensures
            r is Ok <==> categories_error(self@) is None,
            r is Err ==> categories_error(self@) == Some(r->Err_0@),
    {
        let ghost cs = self@;
        let mut i: usize = 0;
        while i < self.0.len()
            invariant
                cs == self@,
                i <= cs.len(),
                cs.len() == self.0@.len(),
                categories_scan(cs, 0) == categories_scan(cs, i as int),
            decreases cs.len() - i,
        {
            match self.0[i].variables.perform_self_check() {
                Ok(_) => {
                    proof {
                        assert(categories_scan(cs, i as int) == categories_scan(cs, i + 1));
                    }
                    i = i + 1;
                },
                Err(e) => {
                    return Err(e);
                },
            }
        }
        Ok(())
    }
}

} // verus!
