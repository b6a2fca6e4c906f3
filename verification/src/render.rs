//! The rendering engine: two pure transformations of a validated schema,
//! one into Markdown documentation and one into a shell script that fills
//! unset variables with their schema defaults. Both keep the declaration
//! order of categories and variables; neither re-validates.

use vstd::prelude::*;
use vstd::string::StrSliceExecFns;
use vstd::string::StringExecFns;

use crate::schema::Categories;
use crate::schema::Category;
use crate::schema::CategoryModel;
use crate::schema::Variable;
use crate::schema::VariableModel;
use crate::schema::Variables;
use crate::text::lower_of;
use crate::text::lowercase;
use crate::text::push_char;
use crate::value::MetaModel;
use crate::value::ValueEntry;
use crate::value::ValueEntryModel;
use crate::value::ValueModel;
use crate::value::meta_text;
use crate::value::type_label;
use crate::value::value_text;

verus! {

/// One allowed value as documentation lists it: the value in back-ticks,
/// an arrow, its description.
pub open spec fn entry_text(e: ValueEntryModel) -> Seq<char> {
    "`"@ + value_text(e.value) + "` ⇒ "@ + e.description
}

/// The list items of the Values table cell, in declaration order.
pub open spec fn entries_items(entries: Seq<ValueEntryModel>) -> Seq<char>
    decreases entries.len(),
{
    if entries.len() == 0 {
        Seq::empty()
    } else {
        entries_items(entries.drop_last()) + "<li>"@ + entry_text(entries.last()) + "</li>"@
    }
}

/// The Values table cell: the allowed values as an unordered list, or a
/// fixed sentence when any value of the type is allowed.
pub open spec fn values_cell(values: Option<Seq<ValueEntryModel>>) -> Seq<char> {
    match values {
        Option::Some(entries) => "<ul>"@ + entries_items(entries) + "</ul>"@,
        Option::None => "Arbitrary values within the restriction of the type are allowed"@,
    }
}

/// The Default table cell: the default's canonical text, or a fixed
/// sentence when no default is declared.
pub open spec fn default_cell(default: Option<ValueModel>) -> Seq<char> {
    match default {
        Option::Some(d) => value_text(d),
        Option::None => "This variable does not have a default value"@,
    }
}

/// The Meta table row, present only when the variable is not plainly in
/// use.
pub open spec fn meta_row(m: MetaModel) -> Seq<char> {
    if m is InUse {
        Seq::empty()
    } else {
        "\n|Meta|"@ + meta_text(m)
    }
}

/// The Markdown block of one variable: heading, description, and the
/// property table.
pub open spec fn variable_markdown(v: VariableModel) -> Seq<char> {
    "\n### "@ + v.name + "\n\n"@ + v.description + "\n\n|Property|Value|\n|:-- |:-- |\n|Type|"@
        + type_label(v.typ) + "|\n|Default|"@ + default_cell(v.default) + "|\n|Values|"@
        + values_cell(v.values) + "|"@ + meta_row(v.meta)
}

/// The Markdown blocks of a sequence of variables, in declaration order.
pub open spec fn variables_markdown(vs: Seq<VariableModel>) -> Seq<char>
    decreases vs.len(),
{
    if vs.len() == 0 {
        Seq::empty()
    } else {
        variables_markdown(vs.drop_last()) + variable_markdown(vs.last()) + "\n"@
    }
}

/// The Markdown section of one category: its heading and its variables.
pub open spec fn category_markdown(c: CategoryModel) -> Seq<char> {
    "##  "@ + c.category + variables_markdown(c.variables)
}

/// The Markdown sections of a sequence of categories, in declaration
/// order.
pub open spec fn categories_sections(cs: Seq<CategoryModel>) -> Seq<char>
    decreases cs.len(),
{
    if cs.len() == 0 {
        Seq::empty()
    } else {
        categories_sections(cs.drop_last()) + category_markdown(cs.last())
    }
}

/// The whole Markdown document: the title, then one section per category.
pub open spec fn categories_markdown(cs: Seq<CategoryModel>) -> Seq<char> {
    "# Environment Variables\n"@ + categories_sections(cs)
}

/// A description as shell comment lines: every line break continues the
/// comment on the next line.
pub open spec fn shell_comment_text(d: Seq<char>) -> Seq<char>
    decreases d.len(),
{
    if d.len() == 0 {
        Seq::empty()
    } else if d.last() == '\n' {
        shell_comment_text(d.drop_last()) + "\n  # "@
    } else {
        shell_comment_text(d.drop_last()) + seq![d.last()]
    }
}

/// The default text inside a shell assignment: the canonical value text,
/// or nothing when no default is declared.
pub open spec fn shell_default(default: Option<ValueModel>) -> Seq<char> {
    match default {
        Option::Some(d) => value_text(d),
        Option::None => Seq::empty(),
    }
}

/// The shell lines of one variable: its description as comment lines, then
/// an assignment that keeps an already-set variable and falls back to the
/// schema default.
pub open spec fn variable_shell(v: VariableModel) -> Seq<char> {
    "  # "@ + shell_comment_text(v.description) + "\n  VARS["@ + v.name + "]=\"${"@ + v.name
        + ":="@ + shell_default(v.default) + "}\""@
}

/// The shell lines of a sequence of variables, in declaration order.
pub open spec fn variables_shell(vs: Seq<VariableModel>) -> Seq<char>
    decreases vs.len(),
{
    if vs.len() == 0 {
        Seq::empty()
    } else {
        variables_shell(vs.drop_last()) + "\n"@ + variable_shell(vs.last())
    }
}

/// The shell function of one category, named after the lower-cased
/// category name under a fixed prefix.
pub open spec fn category_shell(c: CategoryModel) -> Seq<char> {
    "function __environment_variables__automated__"@ + lower_of(c.category) + "() {"@
        + variables_shell(c.variables) + "\n}"@
}

/// The shell functions of a sequence of categories, in declaration order,
/// each preceded by a blank line.
pub open spec fn categories_functions(cs: Seq<CategoryModel>) -> Seq<char>
    decreases cs.len(),
{
    if cs.len() == 0 {
        Seq::empty()
    } else {
        categories_functions(cs.drop_last()) + "\n\n"@ + category_shell(cs.last())
    }
}

/// The whole shell script: the interpreter directive, one function per
/// category, and a final newline.
pub open spec fn categories_shell(cs: Seq<CategoryModel>) -> Seq<char> {
    "#!/bin/bash"@ + categories_functions(cs) + "\n"@
}

impl ValueEntry {
    /// Renders this allowed value as documentation lists it.
    pub fn to_text(&self) -> (r: String)
        ensures
            r@ == entry_text(self@),
    {
        let mut r = String::from_str("`");
        let value_part = self.value.to_text();
        r.append(value_part.as_str());
        r.append("` ⇒ ");
        r.append(self.description.as_str());
        proof {
            assert(r@ =~= entry_text(self@));
        }
        r
    }
}

impl Variable {
    /// Renders the Markdown block of this variable.
    pub fn to_markdown(&self) -> (r: String)
        ensures
            r@ == variable_markdown(self@),
    {
        let mut r = String::from_str("\n### ");
        r.append(self.name.as_str());
        r.append("\n\n");
        r.append(self.description.as_str());
        r.append("\n\n|Property|Value|\n|:-- |:-- |\n|Type|");
        let label = self.typ.label();
        r.append(label.as_str());
        r.append("|\n|Default|");
        match &self.default {
            Option::Some(d) => {
                let t = d.to_text();
                r.append(t.as_str());
            },
            Option::None => {
                r.append("This variable does not have a default value");
            },
        }
        r.append("|\n|Values|");
        match &self.values {
            Option::Some(values) => {
                let ghost entries = values.deep_view();
                r.append("<ul>");
                let ghost before = r@;
                let mut i: usize = 0;
                while i < values.len()
                    invariant
                        entries == values.deep_view(),
                        i <= entries.len(),
                        entries.len() == values@.len(),
                        r@ =~= before + entries_items(entries.subrange(0, i as int)),
                    decreases entries.len() - i,
                {
                    r.append("<li>");
                    let item = values[i].to_text();
                    r.append(item.as_str());
                    r.append("</li>");
                    proof {
                        assert(entries.subrange(0, i + 1).drop_last() =~= entries.subrange(
                            0,
                            i as int,
                        ));
                        assert(entries.subrange(0, i + 1).last() == entries[i as int]);
                        assert(r@ =~= before + entries_items(entries.subrange(0, i + 1)));
                    }
                    i = i + 1;
                }
                r.append("</ul>");
                proof {
                    assert(entries.subrange(0, entries.len() as int) =~= entries);
                }
            },
            Option::None => {
                r.append("Arbitrary values within the restriction of the type are allowed");
            },
        }
        r.append("|");
        match &self.meta {
            crate::value::MetaInformation::InUse => {},
            _ => {
                r.append("\n|Meta|");
                let m = self.meta.to_text();
                r.append(m.as_str());
            },
        }
        proof {
            assert(r@ =~= variable_markdown(self@));
        }
        r
    }

    /// Renders the shell lines of this variable.
    pub fn to_shell(&self) -> (r: String)
        ensures
            r@ == variable_shell(self@),
    {
        let mut r = String::from_str("  # ");
        let s = self.description.as_str();
        let len = s.unicode_len();
        let ghost before = r@;
        let mut i: usize = 0;
        while i < len
            invariant
                i <= len,
                len == self.description@.len(),
                s@ == self.description@,
                r@ =~= before + shell_comment_text(self.description@.subrange(0, i as int)),
            decreases len - i,
        {
            let c = s.get_char(i);
            if c == '\n' {
                r.append("\n  # ");
            } else {
                push_char(&mut r, c);
            }
            proof {
                assert(self.description@.subrange(0, i + 1).drop_last() =~= self.description@.subrange(
                    0,
                    i as int,
                ));
                assert(self.description@.subrange(0, i + 1).last() == self.description@[i as int]);
                assert(r@ =~= before + shell_comment_text(self.description@.subrange(0, i + 1)));
            }
            i = i + 1;
        }
        proof {
            assert(self.description@.subrange(0, len as int) =~= self.description@);
        }
        r.append("\n  VARS[");
        r.append(self.name.as_str());
        r.append("]=\"${");
        r.append(self.name.as_str());
        r.append(":=");
        match &self.default {
            Option::Some(d) => {
                let t = d.to_text();
                r.append(t.as_str());
            },
            Option::None => {},
        }
        r.append("}\"");
        proof {
            assert(r@ =~= variable_shell(self@));
        }
        r
    }
}

impl Variables {
    /// Renders the Markdown blocks of these variables in order.
    pub fn write_as_markdown(&self) -> (r: String)
        ensures
            r@ == variables_markdown(self@),
    {
        let ghost vs = self@;
        let mut r = String::new();
        let mut i: usize = 0;
        while i < self.0.len()
            invariant
                vs == self@,
                i <= vs.len(),
                vs.len() == self.0@.len(),
                r@ =~= variables_markdown(vs.subrange(0, i as int)),
            decreases vs.len() - i,
        {
            let block = self.0[i].to_markdown();
            r.append(block.as_str());
            r.append("\n");
            proof {
                assert(vs.subrange(0, i + 1).drop_last() =~= vs.subrange(0, i as int));
                assert(vs.subrange(0, i + 1).last() == vs[i as int]);
                assert(r@ =~= variables_markdown(vs.subrange(0, i + 1)));
            }
            i = i + 1;
        }
        proof {
            assert(vs.subrange(0, vs.len() as int) =~= vs);
        }
        r
    }

    /// Renders the shell lines of these variables in order.
    pub fn write_as_shell(&self) -> (r: String)
        ensures
            r@ == variables_shell(self@),
    {
        let ghost vs = self@;
        let mut r = String::new();
        let mut i: usize = 0;
        while i < self.0.len()
            invariant
                vs == self@,
                i <= vs.len(),
                vs.len() == self.0@.len(),
                r@ =~= variables_shell(vs.subrange(0, i as int)),
            decreases vs.len() - i,
        {
            r.append("\n");
            let block = self.0[i].to_shell();
            r.append(block.as_str());
            proof {
                assert(vs.subrange(0, i + 1).drop_last() =~= vs.subrange(0, i as int));
                assert(vs.subrange(0, i + 1).last() == vs[i as int]);
                assert(r@ =~= variables_shell(vs.subrange(0, i + 1)));
            }
            i = i + 1;
        }
        proof {
            assert(vs.subrange(0, vs.len() as int) =~= vs);
        }
        r
    }
}

impl Category {
    /// Renders the Markdown section of this category.
    pub fn write_as_markdown(&self) -> (r: String)
        ensures
            r@ == category_markdown(self@),
    {
        let mut r = String::from_str("##  ");
        r.append(self.category.as_str());
        let blocks = self.variables.write_as_markdown();
        r.append(blocks.as_str());
        proof {
            assert(r@ =~= category_markdown(self@));
        }
        r
    }

    /// Renders the shell function of this category.
    pub fn write_as_shell(&self) -> (r: String)
        ensures
            r@ == category_shell(self@),
    {
        let mut r = String::from_str("function __environment_variables__automated__");
        let name = lowercase(self.category.as_str());
        r.append(name.as_str());
        r.append("() {");
        let lines = self.variables.write_as_shell();
        r.append(lines.as_str());
        r.append("\n}");
        proof {
            assert(r@ =~= category_shell(self@));
        }
        r
    }
}

impl Categories {
    /// Renders the whole Markdown document for this schema.
    pub fn write_as_markdown(&self) -> (r: String)
        ensures
            r@ == categories_markdown(self@),
    {
        let ghost cs = self@;
        let mut r = String::from_str("# Environment Variables\n");
        let ghost before = r@;
        let mut i: usize = 0;
        while i < self.0.len()
            invariant
                cs == self@,
                i <= cs.len(),
                cs.len() == self.0@.len(),
                before == "# Environment Variables\n"@,
                r@ =~= before + categories_sections(cs.subrange(0, i as int)),
            decreases cs.len() - i,
        {
            let section = self.0[i].write_as_markdown();
            r.append(section.as_str());
            proof {
                assert(cs.subrange(0, i + 1).drop_last() =~= cs.subrange(0, i as int));
                assert(cs.subrange(0, i + 1).last() == cs[i as int]);
                assert(r@ =~= before + categories_sections(cs.subrange(0, i + 1)));
            }
            i = i + 1;
        }
        proof {
            assert(cs.subrange(0, cs.len() as int) =~= cs);
            assert(r@ =~= categories_markdown(cs));
        }
        r
    }

    /// Renders the whole shell script for this schema.
    pub fn write_as_shell(&self) -> (r: String)
        ensures
            r@ == categories_shell(self@),
    {
        let ghost cs = self@;
        let mut r = String::from_str("#!/bin/bash");
        let ghost before = r@;
        let mut i: usize = 0;
        while i < self.0.len()
            invariant
                cs == self@,
                i <= cs.len(),
                cs.len() == self.0@.len(),
                before == "#!/bin/bash"@,
                r@ =~= before + categories_functions(cs.subrange(0, i as int)),
            decreases cs.len() - i,
        {
            r.append("\n\n");
            let function = self.0[i].write_as_shell();
            r.append(function.as_str());
            proof {
                assert(cs.subrange(0, i + 1).drop_last() =~= cs.subrange(0, i as int));
                assert(cs.subrange(0, i + 1).last() == cs[i as int]);
                assert(r@ =~= before + categories_functions(cs.subrange(0, i + 1)));
            }
            i = i + 1;
        }
        r.append("\n");
        proof {
            assert(cs.subrange(0, cs.len() as int) =~= cs);
            assert(r@ =~= categories_shell(cs));
        }
        r
    }
}

} // verus!
