//! Laws of the engine, stated and proved once for all inputs: how names
//! are rejected, what each refinement admits, when uniqueness and default
//! containment fail, and that rendering keeps declaration order and is
//! deterministic.

use vstd::prelude::*;

use crate::render::categories_functions;
use crate::render::categories_markdown;
use crate::render::category_markdown;
use crate::render::category_shell;
use crate::schema::CategoryModel;
use crate::schema::VariableModel;
use crate::validate::CheckErrorModel;
use crate::validate::name_char_ok;
use crate::validate::default_contained;
use crate::validate::default_error;
use crate::validate::name_error;
use crate::validate::name_scan;
use crate::validate::shape_ok;
use crate::validate::unique_error;
use crate::validate::values_distinct;
use crate::validate::variable_error;
use crate::value::Type;
use crate::value::ValueModel;

verus! {

/// A lower-case ASCII letter.
pub open spec fn ascii_lower(c: char) -> bool {
    'a' <= c && c <= 'z'
}

/// A name that contains a space character always fails validation with the
/// whitespace error, whatever the rest of the variable declares.
pub proof fn lemma_space_in_name_rejected(v: VariableModel)
    requires
        v.name.contains(' '),
    ensures
        variable_error(v) == Some(CheckErrorModel::NameWhitespace { name: v.name }),
{
}

proof fn lemma_scan_hits_ascii_offender(name: Seq<char>, i: int)
    requires
        0 <= i <= name.len(),
        forall|j: int| 0 <= j < name.len() ==> (#[trigger] name[j] as u32) < 128,
        exists|j: int| i <= j < name.len() && ascii_lower(#[trigger] name[j]),
    ensures
        name_scan(name, i) == Some(CheckErrorModel::NameLowercase { name }),
    decreases name.len() - i,
{
    let w = choose|j: int| i <= j < name.len() && ascii_lower(#[trigger] name[j]);
    if name_char_ok(name[i]) {
        assert(!ascii_lower(name[i]));
        lemma_scan_hits_ascii_offender(name, i + 1);
    }
}

/// A name made of ASCII characters without spaces that contains a
/// lower-case ASCII letter always fails validation with the lowercase
/// error — distinct from the error a non-ASCII character produces.
pub proof fn lemma_lowercase_in_name_rejected(v: VariableModel)
    requires
        !v.name.contains(' '),
        forall|j: int| 0 <= j < v.name.len() ==> (#[trigger] v.name[j] as u32) < 128,
        exists|j: int| 0 <= j < v.name.len() && ascii_lower(#[trigger] v.name[j]),
    ensures
        variable_error(v) == Some(CheckErrorModel::NameLowercase { name: v.name }),
{
    lemma_scan_hits_ascii_offender(v.name, 0);
    assert(name_error(v.name) == Some(CheckErrorModel::NameLowercase { name: v.name }));
}

proof fn lemma_scan_none_means_all_ok(name: Seq<char>, i: int)
    requires
        0 <= i <= name.len(),
    ensures
        name_scan(name, i) is None <==> (forall|j: int|
            i <= j < name.len() ==> name_char_ok(#[trigger] name[j])),
    decreases name.len() - i,
{
    if i < name.len() {
        lemma_scan_none_means_all_ok(name, i + 1);
    }
}

/// A name passes validation exactly when it contains no space and every
/// one of its characters is an underscore or an upper-case ASCII letter;
/// in particular the empty name passes this check and is caught by the
/// length rule instead.
pub proof fn lemma_name_acceptance(name: Seq<char>)
    ensures
        name_error(name) is None <==> (!name.contains(' ') && forall|i: int|
            0 <= i < name.len() ==> name_char_ok(#[trigger] name[i])),
{
    lemma_scan_none_means_all_ok(name, 0);
}

/// A non-zero-number type admits exactly the numbers bigger than zero:
/// zero and every negative number fail, one passes.
pub proof fn lemma_non_zero_number_refinement(n: int)
    ensures
        shape_ok(Type::NonZeroNumber, ValueModel::Number(n)) <==> n > 0,
{
}

/// A number-as-boolean type admits exactly zero and one.
pub proof fn lemma_number_as_bool_refinement(n: int)
    ensures
        shape_ok(Type::NumberAsBool, ValueModel::Number(n)) <==> (n == 0 || n == 1),
{
}

/// A non-empty-string type admits exactly the non-empty strings.
pub proof fn lemma_non_empty_string_refinement(s: Seq<char>)
    ensures
        shape_ok(Type::NonEmptyString, ValueModel::Text(s)) <==> s.len() > 0,
{
}

/// A non-empty-list type admits exactly the non-empty lists.
pub proof fn lemma_non_empty_list_refinement(l: Seq<Seq<char>>)
    ensures
        shape_ok(Type::NonEmptyList, ValueModel::List(l)) <==> l.len() > 0,
{
}

/// Two allowed values that are structurally equal fail the uniqueness
/// check, even when their descriptions differ.
pub proof fn lemma_duplicate_values_rejected(v: VariableModel, i: int, j: int)
    requires
        v.values is Some,
        0 <= i < j < v.values->Some_0.len(),
        v.values->Some_0[i].value == v.values->Some_0[j].value,
    ensures
        unique_error(v) == Some(CheckErrorModel::DuplicateValues { name: v.name }),
{
    let entries = v.values->Some_0;
    assert(!values_distinct(entries));
}

/// The default containment check fails exactly when both a default and
/// allowed values are declared and the default equals none of them; a
/// variable without a default, or without declared values, always passes
/// it — whatever shape the default has.
pub proof fn lemma_default_containment(v: VariableModel)
    ensures
        v.default is None ==> default_error(v) is None,
        v.values is None ==> default_error(v) is None,
        (v.default is Some && v.values is Some) ==> (default_error(v) is None
            <==> default_contained(v.default->Some_0, v.values->Some_0)),
{
}

/// Appending a category to a schema appends exactly its section to the
/// Markdown document: sections keep declaration order, so the section of
/// an earlier category precedes the section of a later one.
pub proof fn lemma_markdown_keeps_order(cs: Seq<CategoryModel>, c: CategoryModel)
    ensures
        categories_markdown(cs.push(c)) == categories_markdown(cs) + category_markdown(c),
{
    assert(cs.push(c).drop_last() =~= cs);
    assert(cs.push(c).last() == c);
    assert(categories_markdown(cs.push(c)) =~= categories_markdown(cs) + category_markdown(c));
}

/// Every category section opens with the Markdown heading that carries the
/// category's name verbatim.
pub proof fn lemma_markdown_section_heading(c: CategoryModel)
    ensures
        category_markdown(c).len() >= 4 + c.category.len(),
        category_markdown(c).subrange(0, 4) == "##  "@,
        category_markdown(c).subrange(4, 4 + c.category.len() as int) == c.category,
{
    reveal_strlit("##  ");
    assert(category_markdown(c).subrange(0, 4) =~= "##  "@);
    assert(category_markdown(c).subrange(4, 4 + c.category.len() as int) =~= c.category);
}

/// Appending a category to a schema appends exactly its function to the
/// shell script body: functions keep declaration order, so the function of
/// an earlier category precedes the function of a later one.
pub proof fn lemma_shell_keeps_order(cs: Seq<CategoryModel>, c: CategoryModel)
    ensures
        categories_functions(cs.push(c)) == categories_functions(cs) + "\n\n"@ + category_shell(c),
{
    assert(cs.push(c).drop_last() =~= cs);
    assert(cs.push(c).last() == c);
}

/// Rendering is deterministic: any two Markdown renderings of the same
/// schema are byte-identical, and so are any two shell renderings.
pub proof fn lemma_rendering_idempotent(
    cs: Seq<CategoryModel>,
    md_first: Seq<char>,
    md_second: Seq<char>,
    sh_first: Seq<char>,
    sh_second: Seq<char>,
)
    requires
        md_first == categories_markdown(cs),
        md_second == categories_markdown(cs),
        sh_first == crate::render::categories_shell(cs),
        sh_second == crate::render::categories_shell(cs),
    ensures
        md_first == md_second,
        sh_first == sh_second,
{
}

} // verus!
