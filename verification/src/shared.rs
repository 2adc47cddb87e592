//! Data shared by every profile: categories with their colors, templates,
//! and quick-add presets.
//!
//! Category colors are kept as an ordered list of name/color entries with
//! first-match lookup; a name without an entry falls back to gray at read
//! time rather than being an error.

use vstd::prelude::*;
use crate::expense::{Expense, ExpenseV};
use crate::preset::{ExpensePreset, ExpensePresetV};
use crate::template::{Template, TemplateV};
use crate::text::{str_eq, trim, trim_spec};

verus! {

/// An RGB color.
#[derive(Clone, Copy, PartialEq, Eq, Structural, Debug)]
pub struct CategoryColor {
    pub r: u8,
    pub g: u8,
    pub b: u8,
}

/// The gray a category without a color entry is shown in.
pub open spec fn spec_default_gray() -> CategoryColor {
    CategoryColor { r: 156, g: 163, b: 175 }
}

/// One category's color entry.
pub struct ColorEntry {
    pub name: String,
    pub color: CategoryColor,
}

/// The mathematical value of a color entry.
#[verifier::ext_equal]
pub ghost struct ColorEntryV {
    pub name: Seq<char>,
    pub color: CategoryColor,
}

impl View for ColorEntry {
    type V = ColorEntryV;

    open spec fn view(&self) -> ColorEntryV {
        ColorEntryV { name: self.name@, color: self.color }
    }
}

impl DeepView for ColorEntry {
    type V = ColorEntryV;

    open spec fn deep_view(&self) -> ColorEntryV {
        self.view()
    }
}

/// First-match color lookup over the entry list.
pub open spec fn lookup_color(entries: Seq<ColorEntryV>, name: Seq<char>) -> Option<CategoryColor>
    decreases entries.len(),
{
    if entries.len() == 0 {
        None
    } else if entries[0].name == name {
        Some(entries[0].color)
    } else {
        lookup_color(entries.drop_first(), name)
    }
}

proof fn lemma_lookup_skip(entries: Seq<ColorEntryV>, name: Seq<char>, i: int)
    requires
        0 <= i <= entries.len(),
        forall|j: int| 0 <= j < i ==> entries[j].name != name,
    ensures
        lookup_color(entries, name) == lookup_color(
            entries.subrange(i, entries.len() as int),
            name,
        ),
    decreases i,
{
    if i == 0 {
        assert(entries.subrange(0, entries.len() as int) =~= entries);
    } else {
        lemma_lookup_skip(entries.drop_first(), name, i - 1);
        assert(entries.drop_first().subrange(i - 1, entries.drop_first().len() as int)
            =~= entries.subrange(i, entries.len() as int));
    }
}

/// Relates an entry list to the result of writing a color under a name:
/// the first entry holding the name takes the new color, every other entry
/// is untouched; a list without the name grows by one entry at the end.
pub open spec fn color_upsert_result(
    before: Seq<ColorEntryV>,
    after: Seq<ColorEntryV>,
    name: Seq<char>,
    color: CategoryColor,
) -> bool {
    if forall|j: int| 0 <= j < before.len() ==> before[j].name != name {
        after == before.push(ColorEntryV { name, color })
    } else {
        exists|i: int|
            {
                &&& 0 <= i < before.len()
                &&& #[trigger] before[i].name == name
                &&& (forall|j: int| 0 <= j < i ==> before[j].name != name)
                &&& after == before.update(i, ColorEntryV { name, color })
            }
    }
}

/// Writes a color under a name into the entry list, replacing the first
/// entry of that name or appending a new one.
fn color_upsert(entries: &mut Vec<ColorEntry>, name: &String, color: CategoryColor)
    ensures
        color_upsert_result(old(entries).deep_view(), final(entries).deep_view(), name@, color),
{
    let ghost before = entries.deep_view();
    let mut i: usize = 0;
    while i < entries.len()
        invariant
            0 <= i <= entries.len(),
            before == old(entries).deep_view(),
            before == entries.deep_view(),
            before.len() == entries.len(),
            forall|j: int| 0 <= j < i ==> before[j].name != name@,
        decreases entries.len() - i,
    {
        if str_eq(entries[i].name.as_str(), name.as_str()) {
            proof {
                assert(before[i as int].name == name@);
            }
            let e = entries.remove(i);
            entries.insert(i, ColorEntry { name: e.name, color });
            proof {
                assert(entries.deep_view() =~= before.update(
                    i as int,
                    ColorEntryV { name: name@, color },
                ));
                assert(color_upsert_result(before, entries.deep_view(), name@, color));
            }
            return ;
        }
        i = i + 1;
    }
    entries.push(ColorEntry { name: name.clone(), color });
    proof {
        assert(entries.deep_view() =~= before.push(ColorEntryV { name: name@, color }));
    }
}

/// Looks a category's color up, defaulting to gray when no entry holds the
/// name.
pub fn color_of(entries: &Vec<ColorEntry>, name: &str) -> (r: CategoryColor)
    ensures
        r == (match lookup_color(entries.deep_view(), name@) {
            Some(c) => c,
            None => spec_default_gray(),
        }),
{
    let ghost all = entries.deep_view();
    let mut i: usize = 0;
    while i < entries.len()
        invariant
            0 <= i <= entries.len(),
            all == entries.deep_view(),
            all.len() == entries.len(),
            forall|j: int| 0 <= j < i ==> all[j].name != name@,
        decreases entries.len() - i,
    {
        if str_eq(entries[i].name.as_str(), name) {
            proof {
                lemma_lookup_skip(all, name@, i as int);
                assert(all.subrange(i as int, all.len() as int)[0] == all[i as int]);
            }
            return entries[i].color;
        }
        i = i + 1;
    }
    proof {
        lemma_lookup_skip(all, name@, all.len() as int);
    }
    CategoryColor { r: 156, g: 163, b: 175 }
}

/// Whether the list holds a string with exactly these characters.
pub fn contains_string(names: &Vec<String>, name: &str) -> (r: bool)
    ensures
        r == names.deep_view().contains(name@),
{
    let mut i: usize = 0;
    while i < names.len()
        invariant
            0 <= i <= names.len(),
            forall|j: int| 0 <= j < i ==> names.deep_view()[j] != name@,
        decreases names.len() - i,
    {
        if str_eq(names[i].as_str(), name) {
            assert(names.deep_view()[i as int] == name@);
            return true;
        }
        i = i + 1;
    }
    false
}

/// First position in a template list holding the given id, if any.
pub fn find_template(templates: &Vec<Template>, id: u128) -> (r: Option<usize>)
    ensures
        r matches Some(i) ==> i < templates.len() && templates.deep_view()[i as int].id == id && (
        forall|j: int| 0 <= j < i ==> templates.deep_view()[j].id != id),
        r is None ==> forall|j: int|
            0 <= j < templates.len() ==> templates.deep_view()[j].id != id,
{
    let mut i: usize = 0;
    while i < templates.len()
        invariant
            0 <= i <= templates.len(),
            forall|j: int| 0 <= j < i ==> templates.deep_view()[j].id != id,
        decreases templates.len() - i,
    {
        if templates[i].id == id {
            return Some(i);
        }
        i = i + 1;
    }
    None
}

/// First position in a preset list holding the given id, if any.
pub fn find_preset(presets: &Vec<ExpensePreset>, id: u128) -> (r: Option<usize>)
    ensures
        r matches Some(i) ==> i < presets.len() && presets.deep_view()[i as int].id == id && (
        forall|j: int| 0 <= j < i ==> presets.deep_view()[j].id != id),
        r is None ==> forall|j: int| 0 <= j < presets.len() ==> presets.deep_view()[j].id != id,
{
    let mut i: usize = 0;
    while i < presets.len()
        invariant
            0 <= i <= presets.len(),
            forall|j: int| 0 <= j < i ==> presets.deep_view()[j].id != id,
        decreases presets.len() - i,
    {
        if presets[i].id == id {
            return Some(i);
        }
        i = i + 1;
    }
    None
}

/// Relates a template list to the result of renaming the template holding
/// the given id: the first match takes the new name, every other template
/// is untouched; a list without a match is unchanged.
pub open spec fn rename_result(
    before: Seq<TemplateV>,
    after: Seq<TemplateV>,
    id: u128,
    name: Seq<char>,
) -> bool {
    if forall|j: int| 0 <= j < before.len() ==> before[j].id != id {
        after == before
    } else {
        exists|i: int|
            {
                &&& 0 <= i < before.len()
                &&& #[trigger] before[i].id == id
                &&& (forall|j: int| 0 <= j < i ==> before[j].id != id)
                &&& after == before.update(i, TemplateV { name, ..before[i] })
            }
    }
}

/// Relates a template list to the result of replacing the expense snapshot
/// of the template holding the given id: the first match takes the new
/// snapshot, every other template is untouched; a list without a match is
/// unchanged.
pub open spec fn update_expenses_result(
    before: Seq<TemplateV>,
    after: Seq<TemplateV>,
    id: u128,
    expenses: Seq<ExpenseV>,
) -> bool {
    if forall|j: int| 0 <= j < before.len() ==> before[j].id != id {
        after == before
    } else {
        exists|i: int|
            {
                &&& 0 <= i < before.len()
                &&& #[trigger] before[i].id == id
                &&& (forall|j: int| 0 <= j < i ==> before[j].id != id)
                &&& after == before.update(i, TemplateV { expenses, ..before[i] })
            }
    }
}

/// An exact copy of a list of strings.
pub fn copy_strings(names: &Vec<String>) -> (r: Vec<String>)
    ensures
        r.deep_view() == names.deep_view(),
{
    let mut out: Vec<String> = Vec::new();
    let mut i: usize = 0;
    while i < names.len()
        invariant
            0 <= i <= names.len(),
            out.deep_view() =~= names.deep_view().take(i as int),
        decreases names.len() - i,
    {
        let ghost prev = out.deep_view();
        out.push(names[i].clone());
        proof {
            assert(out.deep_view() =~= prev.push(names.deep_view()[i as int]));
            assert(names.deep_view().take(i + 1int) =~= names.deep_view().take(i as int).push(
                names.deep_view()[i as int],
            ));
        }
        i = i + 1;
    }
    proof {
        assert(names.deep_view().take(names.len() as int) =~= names.deep_view());
    }
    out
}

/// An exact copy of a list of color entries.
pub fn copy_color_entries(entries: &Vec<ColorEntry>) -> (r: Vec<ColorEntry>)
    ensures
        r.deep_view() == entries.deep_view(),
{
    let mut out: Vec<ColorEntry> = Vec::new();
    let mut i: usize = 0;
    while i < entries.len()
        invariant
            0 <= i <= entries.len(),
            out.deep_view() =~= entries.deep_view().take(i as int),
        decreases entries.len() - i,
    {
        let ghost prev = out.deep_view();
        let e = &entries[i];
        out.push(ColorEntry { name: e.name.clone(), color: e.color });
        proof {
            assert(out.deep_view() =~= prev.push(entries.deep_view()[i as int]));
            assert(entries.deep_view().take(i + 1int) =~= entries.deep_view().take(i as int).push(
                entries.deep_view()[i as int],
            ));
        }
        i = i + 1;
    }
    proof {
        assert(entries.deep_view().take(entries.len() as int) =~= entries.deep_view());
    }
    out
}

/// An exact copy of a list of templates, identifiers included.
pub fn copy_templates(templates: &Vec<Template>) -> (r: Vec<Template>)
    ensures
        r.deep_view() == templates.deep_view(),
{
    let mut out: Vec<Template> = Vec::new();
    let mut i: usize = 0;
    while i < templates.len()
        invariant
            0 <= i <= templates.len(),
            out.deep_view() =~= templates.deep_view().take(i as int),
        decreases templates.len() - i,
    {
        let ghost prev = out.deep_view();
        let t = &templates[i];
        out.push(
            Template {
                id: t.id,
                name: t.name.clone(),
                expenses: crate::template::snapshot_expenses(&t.expenses),
            },
        );
        proof {
            assert(out.deep_view() =~= prev.push(templates.deep_view()[i as int]));
            assert(templates.deep_view().take(i + 1int) =~= templates.deep_view().take(
                i as int,
            ).push(templates.deep_view()[i as int]));
        }
        i = i + 1;
    }
    proof {
        assert(templates.deep_view().take(templates.len() as int) =~= templates.deep_view());
    }
    out
}

/// An exact copy of a list of presets, identifiers included.
pub fn copy_presets(presets: &Vec<ExpensePreset>) -> (r: Vec<ExpensePreset>)
    ensures
        r.deep_view() == presets.deep_view(),
{
    let mut out: Vec<ExpensePreset> = Vec::new();
    let mut i: usize = 0;
    while i < presets.len()
        invariant
            0 <= i <= presets.len(),
            out.deep_view() =~= presets.deep_view().take(i as int),
        decreases presets.len() - i,
    {
        let ghost prev = out.deep_view();
        out.push(presets[i].snapshot());
        proof {
            assert(out.deep_view() =~= prev.push(presets.deep_view()[i as int]));
            assert(presets.deep_view().take(i + 1int) =~= presets.deep_view().take(i as int).push(
                presets.deep_view()[i as int],
            ));
        }
        i = i + 1;
    }
    proof {
        assert(presets.deep_view().take(presets.len() as int) =~= presets.deep_view());
    }
    out
}

/// Adds a category under the trimmed name together with its color; an
/// empty or already present name leaves both lists unchanged.
pub fn add_category_entry(
    categories: &mut Vec<String>,
    colors: &mut Vec<ColorEntry>,
    category: String,
    color: CategoryColor,
)
    ensures
        ({
            let t = trim_spec(category@);
            if t.len() == 0 || old(categories).deep_view().contains(t) {
                &&& final(categories).deep_view() == old(categories).deep_view()
                &&& final(colors).deep_view() == old(colors).deep_view()
            } else {
                &&& final(categories).deep_view() == old(categories).deep_view().push(t)
                &&& color_upsert_result(
                    old(colors).deep_view(),
                    final(colors).deep_view(),
                    t,
                    color,
                )
            }
        }),
{
    let trimmed = trim(category.as_str());
    if trimmed.unicode_len() != 0 && !contains_string(categories, trimmed.as_str()) {
        let ghost prev = categories.deep_view();
        categories.push(trimmed.clone());
        color_upsert(colors, &trimmed, color);
        proof {
            assert(categories.deep_view() =~= prev.push(trim_spec(category@)));
        }
    }
}

/// Removes a category name and its color entry from the two lists.
pub fn remove_category_entry(
    categories: &mut Vec<String>,
    colors: &mut Vec<ColorEntry>,
    category: &str,
)
    ensures
        final(categories).deep_view() == old(categories).deep_view().filter(
            |c: Seq<char>| c != category@,
        ),
        final(colors).deep_view() == old(colors).deep_view().filter(
            |e: ColorEntryV| e.name != category@,
        ),
{
    let ghost cats = categories.deep_view();
    let ghost cat_pred = |c: Seq<char>| c != category@;
    let mut kept: Vec<String> = Vec::new();
    let mut i: usize = 0;
    while i < categories.len()
        invariant
            0 <= i <= categories.len(),
            cats == old(categories).deep_view(),
            cats == categories.deep_view(),
            cats.len() == categories.len(),
            cat_pred == (|c: Seq<char>| c != category@),
            kept.deep_view() =~= cats.take(i as int).filter(cat_pred),
        decreases categories.len() - i,
    {
        proof {
            reveal(Seq::filter);
            assert(cats.take(i + 1int).drop_last() =~= cats.take(i as int));
            assert(cats.take(i + 1int).last() == cats[i as int]);
        }
        let ghost prev = kept.deep_view();
        if !str_eq(categories[i].as_str(), category) {
            kept.push(categories[i].clone());
            proof {
                assert(kept.deep_view() =~= prev.push(cats[i as int]));
            }
        }
        i = i + 1;
    }
    proof {
        assert(cats.take(categories.len() as int) =~= cats);
    }
    *categories = kept;

    let ghost entries = colors.deep_view();
    let ghost entry_pred = |e: ColorEntryV| e.name != category@;
    let mut kept_colors: Vec<ColorEntry> = Vec::new();
    let mut k: usize = 0;
    while k < colors.len()
        invariant
            0 <= k <= colors.len(),
            entries == old(colors).deep_view(),
            entries == colors.deep_view(),
            entries.len() == colors.len(),
            entry_pred == (|e: ColorEntryV| e.name != category@),
            kept_colors.deep_view() =~= entries.take(k as int).filter(entry_pred),
        decreases colors.len() - k,
    {
        proof {
            reveal(Seq::filter);
            assert(entries.take(k + 1int).drop_last() =~= entries.take(k as int));
            assert(entries.take(k + 1int).last() == entries[k as int]);
        }
        let ghost prev = kept_colors.deep_view();
        if !str_eq(colors[k].name.as_str(), category) {
            let e = &colors[k];
            kept_colors.push(ColorEntry { name: e.name.clone(), color: e.color });
            proof {
                assert(kept_colors.deep_view() =~= prev.push(entries[k as int]));
            }
        }
        k = k + 1;
    }
    proof {
        assert(entries.take(colors.len() as int) =~= entries);
    }
    *colors = kept_colors;
}

/// Recolors a name that the category list holds; any other name leaves the
/// entries unchanged.
pub fn set_color_entry(
    categories: &Vec<String>,
    colors: &mut Vec<ColorEntry>,
    category: &str,
    color: CategoryColor,
)
    ensures
        if categories.deep_view().contains(category@) {
            color_upsert_result(old(colors).deep_view(), final(colors).deep_view(), category@, color)
        } else {
            final(colors).deep_view() == old(colors).deep_view()
        },
{
    if contains_string(categories, category) {
        let name = String::from_str(category);
        color_upsert(colors, &name, color);
    }
}

/// Removes every template holding the given id; absence is a no-op.
pub fn delete_template_from(templates: &mut Vec<Template>, id: u128)
    ensures
        final(templates).deep_view() == old(templates).deep_view().filter(
            |t: TemplateV| t.id != id,
        ),
{
    let ghost all = templates.deep_view();
    let ghost pred = |t: TemplateV| t.id != id;
    let mut kept: Vec<Template> = Vec::new();
    let mut i: usize = 0;
    while i < templates.len()
        invariant
            0 <= i <= templates.len(),
            all == old(templates).deep_view(),
            all == templates.deep_view(),
            all.len() == templates.len(),
            pred == (|t: TemplateV| t.id != id),
            kept.deep_view() =~= all.take(i as int).filter(pred),
        decreases templates.len() - i,
    {
        proof {
            reveal(Seq::filter);
            assert(all.take(i + 1int).drop_last() =~= all.take(i as int));
            assert(all.take(i + 1int).last() == all[i as int]);
        }
        let ghost prev = kept.deep_view();
        if templates[i].id != id {
            let t = &templates[i];
            kept.push(
                Template {
                    id: t.id,
                    name: t.name.clone(),
                    expenses: crate::template::snapshot_expenses(&t.expenses),
                },
            );
            proof {
                assert(kept.deep_view() =~= prev.push(all[i as int]));
            }
        }
        i = i + 1;
    }
    proof {
        assert(all.take(templates.len() as int) =~= all);
    }
    *templates = kept;
}

/// Renames the first template holding the given id; absence is a no-op.
pub fn rename_template_in(templates: &mut Vec<Template>, id: u128, new_name: String)
    ensures
        rename_result(old(templates).deep_view(), final(templates).deep_view(), id, new_name@),
{
    let ghost before = templates.deep_view();
    match find_template(templates, id) {
        Some(i) => {
            let t = templates.remove(i);
            let renamed = Template { id: t.id, name: new_name, expenses: t.expenses };
            templates.insert(i, renamed);
            proof {
                assert(templates.deep_view() =~= before.update(
                    i as int,
                    TemplateV { name: new_name@, ..before[i as int] },
                ));
            }
        },
        None => {
            proof {
                assert(templates.deep_view() =~= before);
            }
        },
    }
}

/// Replaces the expense snapshot of the first template holding the given
/// id; absence is a no-op.
pub fn update_template_expenses_in(templates: &mut Vec<Template>, id: u128, expenses: Vec<Expense>)
    ensures
        update_expenses_result(
            old(templates).deep_view(),
            final(templates).deep_view(),
            id,
            expenses.deep_view(),
        ),
{
    let ghost ev = expenses.deep_view();
    let ghost before = templates.deep_view();
    match find_template(templates, id) {
        Some(i) => {
            let t = templates.remove(i);
            let updated = Template { id: t.id, name: t.name, expenses };
            templates.insert(i, updated);
            proof {
                assert(templates.deep_view() =~= before.update(
                    i as int,
                    TemplateV { expenses: ev, ..before[i as int] },
                ));
            }
        },
        None => {
            proof {
                assert(templates.deep_view() =~= before);
            }
        },
    }
}

/// Removes every preset holding the given id; absence is a no-op.
pub fn remove_preset_from(presets: &mut Vec<ExpensePreset>, id: u128)
    ensures
        final(presets).deep_view() == old(presets).deep_view().filter(
            |p: ExpensePresetV| p.id != id,
        ),
{
    let ghost all = presets.deep_view();
    let ghost pred = |p: ExpensePresetV| p.id != id;
    let mut kept: Vec<ExpensePreset> = Vec::new();
    let mut i: usize = 0;
    while i < presets.len()
        invariant
            0 <= i <= presets.len(),
            all == old(presets).deep_view(),
            all == presets.deep_view(),
            all.len() == presets.len(),
            pred == (|p: ExpensePresetV| p.id != id),
            kept.deep_view() =~= all.take(i as int).filter(pred),
        decreases presets.len() - i,
    {
        proof {
            reveal(Seq::filter);
            assert(all.take(i + 1int).drop_last() =~= all.take(i as int));
            assert(all.take(i + 1int).last() == all[i as int]);
        }
        let ghost prev = kept.deep_view();
        if presets[i].id != id {
            kept.push(presets[i].snapshot());
            proof {
                assert(kept.deep_view() =~= prev.push(all[i as int]));
            }
        }
        i = i + 1;
    }
    proof {
        assert(all.take(presets.len() as int) =~= all);
    }
    *presets = kept;
}

/// Categories, colors, templates and presets, shared across all profiles.
pub struct SharedData {
    pub categories: Vec<String>,
    pub category_colors: Vec<ColorEntry>,
    pub templates: Vec<Template>,
    pub presets: Vec<ExpensePreset>,
}

/// The mathematical value of the shared data.
#[verifier::ext_equal]
pub ghost struct SharedDataV {
    pub categories: Seq<Seq<char>>,
    pub category_colors: Seq<ColorEntryV>,
    pub templates: Seq<TemplateV>,
    pub presets: Seq<ExpensePresetV>,
}

impl View for SharedData {
    type V = SharedDataV;

    open spec fn view(&self) -> SharedDataV {
        SharedDataV {
            categories: self.categories.deep_view(),
            category_colors: self.category_colors.deep_view(),
            templates: self.templates.deep_view(),
            presets: self.presets.deep_view(),
        }
    }
}

impl DeepView for SharedData {
    type V = SharedDataV;

    open spec fn deep_view(&self) -> SharedDataV {
        self.view()
    }
}

/// The built-in category names, in display order.
pub open spec fn spec_default_category_names() -> Seq<Seq<char>> {
    seq![
        "Food & Groceries"@,
        "Transportation"@,
        "Housing & Utilities"@,
        "Entertainment"@,
        "Healthcare"@,
        "Shopping"@,
        "Other"@,
    ]
}

/// The built-in category colors, one entry per built-in name.
pub open spec fn spec_default_category_colors() -> Seq<ColorEntryV> {
    seq![
        ColorEntryV { name: "Food & Groceries"@, color: CategoryColor { r: 34, g: 197, b: 94 } },
        ColorEntryV { name: "Transportation"@, color: CategoryColor { r: 59, g: 130, b: 246 } },
        ColorEntryV {
            name: "Housing & Utilities"@,
            color: CategoryColor { r: 168, g: 85, b: 247 },
        },
        ColorEntryV { name: "Entertainment"@, color: CategoryColor { r: 249, g: 115, b: 22 } },
        ColorEntryV { name: "Healthcare"@, color: CategoryColor { r: 236, g: 72, b: 153 } },
        ColorEntryV { name: "Shopping"@, color: CategoryColor { r: 20, g: 184, b: 166 } },
        ColorEntryV { name: "Other"@, color: CategoryColor { r: 156, g: 163, b: 175 } },
    ]
}

/// The built-in category names.
pub fn default_categories() -> (r: Vec<String>)
    ensures
        r.deep_view() == spec_default_category_names(),
{
    let mut v: Vec<String> = Vec::new();
    v.push(String::from_str("Food & Groceries"));
    v.push(String::from_str("Transportation"));
    v.push(String::from_str("Housing & Utilities"));
    v.push(String::from_str("Entertainment"));
    v.push(String::from_str("Healthcare"));
    v.push(String::from_str("Shopping"));
    v.push(String::from_str("Other"));
    proof {
        assert(v.deep_view() =~= spec_default_category_names());
    }
    v
}

/// The built-in category colors.
pub fn default_category_colors() -> (r: Vec<ColorEntry>)
    ensures
        r.deep_view() == spec_default_category_colors(),
{
    let mut v: Vec<ColorEntry> = Vec::new();
    v.push(
        ColorEntry {
            name: String::from_str("Food & Groceries"),
            color: CategoryColor { r: 34, g: 197, b: 94 },
        },
    );
    v.push(
        ColorEntry {
            name: String::from_str("Transportation"),
            color: CategoryColor { r: 59, g: 130, b: 246 },
        },
    );
    v.push(
        ColorEntry {
            name: String::from_str("Housing & Utilities"),
            color: CategoryColor { r: 168, g: 85, b: 247 },
        },
    );
    v.push(
        ColorEntry {
            name: String::from_str("Entertainment"),
            color: CategoryColor { r: 249, g: 115, b: 22 },
        },
    );
    v.push(
        ColorEntry {
            name: String::from_str("Healthcare"),
            color: CategoryColor { r: 236, g: 72, b: 153 },
        },
    );
    v.push(
        ColorEntry {
            name: String::from_str("Shopping"),
            color: CategoryColor { r: 20, g: 184, b: 166 },
        },
    );
    v.push(
        ColorEntry {
            name: String::from_str("Other"),
            color: CategoryColor { r: 156, g: 163, b: 175 },
        },
    );
    proof {
        assert(v.deep_view() =~= spec_default_category_colors());
    }
    v
}

/// The value the shared data takes on a fresh install or after a failed
/// read: built-in categories and colors, no templates, no presets.
pub open spec fn spec_default_shared() -> SharedDataV {
    SharedDataV {
        categories: spec_default_category_names(),
        category_colors: spec_default_category_colors(),
        templates: Seq::empty(),
        presets: Seq::empty(),
    }
}

impl Default for SharedData {
    /// The built-in shared data.
    fn default() -> (r: SharedData)
        ensures
            r@ == spec_default_shared(),
    {
        SharedData::new()
    }
}

impl SharedData {
    /// The built-in shared data.
    pub fn new() -> (r: SharedData)
        ensures
            r@ == spec_default_shared(),
    {
        let r = SharedData {
            categories: default_categories(),
            category_colors: default_category_colors(),
            templates: Vec::new(),
            presets: Vec::new(),
        };
        proof {
            assert(r@ =~= spec_default_shared());
        }
        r
    }

    /// Adds a category under the trimmed name together with its color; an
    /// empty or already present name leaves everything unchanged.
    pub fn add_category_with_color(&mut self, category: String, color: CategoryColor)
        ensures
            ({
                let t = trim_spec(category@);
                if t.len() == 0 || old(self)@.categories.contains(t) {
                    final(self)@ == old(self)@
                } else {
                    &&& final(self)@.categories == old(self)@.categories.push(t)
                    &&& color_upsert_result(
                        old(self)@.category_colors,
                        final(self)@.category_colors,
                        t,
                        color,
                    )
                    &&& final(self)@.templates == old(self)@.templates
                    &&& final(self)@.presets == old(self)@.presets
                }
            }),
    {
        add_category_entry(&mut self.categories, &mut self.category_colors, category, color);
    }

    /// Removes a category and its color entry; expenses referencing the
    /// name keep it.
    pub fn remove_category(&mut self, category: &str)
        ensures
            final(self)@.categories == old(self)@.categories.filter(
                |c: Seq<char>| c != category@,
            ),
            final(self)@.category_colors == old(self)@.category_colors.filter(
                |e: ColorEntryV| e.name != category@,
            ),
            final(self)@.templates == old(self)@.templates,
            final(self)@.presets == old(self)@.presets,
    {
        remove_category_entry(&mut self.categories, &mut self.category_colors, category);
    }

    /// The category's color, or gray when no entry holds the name.
    pub fn get_category_color(&self, category: &str) -> (r: CategoryColor)
        ensures
            r == (match lookup_color(self@.category_colors, category@) {
                Some(c) => c,
                None => spec_default_gray(),
            }),
    {
        color_of(&self.category_colors, category)
    }

    /// Recolors an existing category; a name outside the category list
    /// leaves everything unchanged.
    pub fn set_category_color(&mut self, category: &str, color: CategoryColor)
        ensures
            final(self)@.categories == old(self)@.categories,
            final(self)@.templates == old(self)@.templates,
            final(self)@.presets == old(self)@.presets,
            if old(self)@.categories.contains(category@) {
                color_upsert_result(
                    old(self)@.category_colors,
                    final(self)@.category_colors,
                    category@,
                    color,
                )
            } else {
                final(self)@.category_colors == old(self)@.category_colors
            },
    {
        if contains_string(&self.categories, category) {
            let name = String::from_str(category);
            color_upsert(&mut self.category_colors, &name, color);
        }
    }

    /// Appends a preset.
    pub fn add_preset(&mut self, preset: ExpensePreset)
        ensures
            final(self)@ == (SharedDataV {
                presets: old(self)@.presets.push(preset@),
                ..old(self)@
            }),
    {
        let ghost prev = self.presets.deep_view();
        let ghost pv = preset@;
        self.presets.push(preset);
        proof {
            assert(self.presets.deep_view() =~= prev.push(pv));
        }
    }

    /// Removes every preset holding the given id; absence is a no-op.
    pub fn remove_preset(&mut self, id: u128)
        ensures
            final(self)@.presets == old(self)@.presets.filter(|p: ExpensePresetV| p.id != id),
            final(self)@.categories == old(self)@.categories,
            final(self)@.category_colors == old(self)@.category_colors,
            final(self)@.templates == old(self)@.templates,
    {
        remove_preset_from(&mut self.presets, id);
    }

    /// The first preset holding the given id, if any.
    pub fn get_preset(&self, id: u128) -> (r: Option<&ExpensePreset>)
        ensures
            r matches Some(p) ==> exists|i: int|
                {
                    &&& 0 <= i < self@.presets.len()
                    &&& #[trigger] self@.presets[i].id == id
                    &&& (forall|j: int| 0 <= j < i ==> self@.presets[j].id != id)
                    &&& p@ == self@.presets[i]
                },
            r is None ==> forall|j: int| 0 <= j < self@.presets.len() ==> self@.presets[j].id != id,
    {
        match find_preset(&self.presets, id) {
            Some(i) => Some(&self.presets[i]),
            None => None,
        }
    }

    /// Appends a template.
    pub fn add_template(&mut self, template: Template)
        ensures
            final(self)@ == (SharedDataV {
                templates: old(self)@.templates.push(template@),
                ..old(self)@
            }),
    {
        let ghost prev = self.templates.deep_view();
        let ghost tv = template@;
        self.templates.push(template);
        proof {
            assert(self.templates.deep_view() =~= prev.push(tv));
        }
    }

    /// Removes every template holding the given id; absence is a no-op.
    pub fn delete_template(&mut self, id: u128)
        ensures
            final(self)@.templates == old(self)@.templates.filter(|t: TemplateV| t.id != id),
            final(self)@.categories == old(self)@.categories,
            final(self)@.category_colors == old(self)@.category_colors,
            final(self)@.presets == old(self)@.presets,
    {
        delete_template_from(&mut self.templates, id);
    }

    /// Renames the first template holding the given id; absence is a no-op.
    pub fn rename_template(&mut self, id: u128, new_name: String)
        ensures
            final(self)@.categories == old(self)@.categories,
            final(self)@.category_colors == old(self)@.category_colors,
            final(self)@.presets == old(self)@.presets,
            rename_result(old(self)@.templates, final(self)@.templates, id, new_name@),
    {
        rename_template_in(&mut self.templates, id, new_name);
    }

    /// Replaces the expense snapshot of the first template holding the
    /// given id; absence is a no-op.
    pub fn update_template_expenses(&mut self, id: u128, expenses: Vec<Expense>)
        ensures
            final(self)@.categories == old(self)@.categories,
            final(self)@.category_colors == old(self)@.category_colors,
            final(self)@.presets == old(self)@.presets,
            update_expenses_result(
                old(self)@.templates,
                final(self)@.templates,
                id,
                expenses.deep_view(),
            ),
    {
        update_template_expenses_in(&mut self.templates, id, expenses);
    }
}

} // verus!
