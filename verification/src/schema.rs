//! The schema graph: variables, ordered categories, and the root that holds
//! every category of a schema document.

use vstd::prelude::*;

use crate::value::MetaInformation;
use crate::value::MetaModel;
use crate::value::Type;
use crate::value::Value;
use crate::value::ValueEntry;
use crate::value::ValueEntryModel;
use crate::value::ValueModel;

verus! {

/// The full description of one environment variable.
#[derive(Debug)]
pub struct Variable {
    /// The name of the variable.
    pub name: String,
    /// What the variable is used for.
    pub description: String,
    /// The type tag constraining the variable's values.
    pub typ: Type,
    /// The allowed values this variable can have, each with a description.
    pub values: Option<Vec<ValueEntry>>,
    /// The default value in case the variable is unset.
    pub default: Option<Value>,
    /// The lifecycle state of the variable.
    pub meta: MetaInformation,
}

/// The mathematical model of a [`Variable`].
pub struct VariableModel {
    pub name: Seq<char>,
    pub description: Seq<char>,
    pub typ: Type,
    pub values: Option<Seq<ValueEntryModel>>,
    pub default: Option<ValueModel>,
    pub meta: MetaModel,
}

impl View for Variable {
    type V = VariableModel;

    open spec fn view(&self) -> VariableModel {
        VariableModel {
            name: self.name@,
            description: self.description@,
            typ: self.typ,
            values: self.values.deep_view(),
            default: self.default.deep_view(),
            meta: self.meta@,
        }
    }
}

impl DeepView for Variable {
    type V = VariableModel;

    open spec fn deep_view(&self) -> VariableModel {
        self.view()
    }
}

/// The ordered sequence of variables inside one category.
#[derive(Debug)]
pub struct Variables(pub Vec<Variable>);

impl View for Variables {
    type V = Seq<VariableModel>;

    open spec fn view(&self) -> Seq<VariableModel> {
        self.0.deep_view()
    }
}

impl DeepView for Variables {
    type V = Seq<VariableModel>;

    open spec fn deep_view(&self) -> Seq<VariableModel> {
        self.view()
    }
}

/// One named category of a schema: a name and its ordered variables.
#[derive(Debug)]
pub struct Category {
    /// The name of the category, shown verbatim as a section heading.
    pub category: String,
    /// The variables the category owns, in declaration order.
    pub variables: Variables,
}

/// The mathematical model of a [`Category`].
pub struct CategoryModel {
    pub category: Seq<char>,
    pub variables: Seq<VariableModel>,
}

impl View for Category {
    type V = CategoryModel;

    open spec fn view(&self) -> CategoryModel {
        CategoryModel { category: self.category@, variables: self.variables@ }
    }
}

impl DeepView for Category {
    type V = CategoryModel;

    open spec fn deep_view(&self) -> CategoryModel {
        self.view()
    }
}

/// The root of a schema document: its categories in declaration order.
#[derive(Debug)]
pub struct Categories(pub Vec<Category>);

impl View for Categories {
    type V = Seq<CategoryModel>;

    open spec fn view(&self) -> Seq<CategoryModel> {
        self.0.deep_view()
    }
}

impl DeepView for Categories {
    type V = Seq<CategoryModel>;

    open spec fn deep_view(&self) -> Seq<CategoryModel> {
        self.view()
    }
}

} // verus!
