//! The report of one section: every declared field with its value, its
//! default, whether the user set it, and what it is for.
//!
//! The fields of a report are those of a declared table, in the order of the
//! table, so the report of a section looks the same on every run.
use crate::payload::with_value;
use crate::plain::Plain;
use crate::text::{decimal, decimal_text, digits_text, join, joined, list_of, list_text, str_eq};
use crate::value::{names_distinct, ArrayHandle, Decimal, Field, FieldView, Value, ValueView};
use vstd::prelude::*;

verus! {

/// A string as JSON writes it: between double quotes, with the characters
/// that JSON cannot hold as they are written as escapes.  `serde_json`
/// defines the text.
pub uninterp spec fn json_string(text: Seq<char>) -> Seq<char>;

/// Renders a string as a JSON string with `serde_json`, through the
/// `Display` of `serde_json::Value`.  The text depends on the characters of
/// the string alone.
#[verifier::external_body]
fn quote_json(text: &str) -> (quoted: String)
    ensures
        quoted@ == json_string(text@),
{
    serde_json::Value::from(text).to_string()
}

/// The shape `shape` in text: the list of its sizes.
pub open spec fn shape_text(shape: Seq<usize>) -> Seq<char> {
    list_text(Seq::new(shape.len(), |i: int| decimal(shape[i] as int)))
}

/// A list of shapes in text.
pub open spec fn shape_list_text(shapes: Seq<Seq<usize>>) -> Seq<char> {
    list_text(Seq::new(shapes.len(), |i: int| shape_text(shapes[i])))
}

/// A list of shape sets in text.
pub open spec fn shape_sets_text(sets: Seq<Seq<Seq<usize>>>) -> Seq<char> {
    list_text(Seq::new(sets.len(), |i: int| shape_list_text(sets[i])))
}

/// One entry of a mapping in text: the key, a colon, the value, both as
/// JSON strings.
pub open spec fn entry_text(entry: (Seq<char>, Seq<char>)) -> Seq<char> {
    json_string(entry.0) + seq![':'] + json_string(entry.1)
}

/// Whether `text` names a number that is not finite.
pub open spec fn names_no_number(text: Seq<char>) -> bool {
    ||| text == "NaN"@
    ||| text == "inf"@
    ||| text == "-inf"@
}

/// A floating-point number in text: its digits, and `null` for one that is
/// not finite, which has none.
pub open spec fn number_text(text: Seq<char>) -> Seq<char> {
    if names_no_number(text) {
        "null"@
    } else {
        text
    }
}

/// The natural text of a value: `null` for none, the literal words for a
/// flag, digits for a number, square brackets around a list, braces around a
/// mapping, whose entries stay in the order they were given, and a string as
/// JSON writes it.
pub open spec fn json_text(value: ValueView) -> Seq<char> {
    match value {
        ValueView::Null => "null"@,
        ValueView::Bool(flag) => if flag {
            "true"@
        } else {
            "false"@
        },
        ValueView::Int(number) => decimal(number),
        ValueView::Float(number) => number_text(number),
        ValueView::Str(text) => json_string(text),
        ValueView::FloatList(items) => list_text(
            Seq::new(items.len(), |i: int| number_text(items[i])),
        ),
        ValueView::StrList(items) => list_text(
            Seq::new(items.len(), |i: int| json_string(items[i])),
        ),
        ValueView::ShapeList(shapes) => shape_list_text(shapes),
        ValueView::ShapeSets(sets) => shape_sets_text(sets),
        ValueView::StrMap(entries) => seq!['{'] + joined(
            Seq::new(entries.len(), |i: int| entry_text(entries[i])),
            seq![','],
        ) + seq!['}'],
        ValueView::Arrays(arrays) => list_text(
            Seq::new(arrays.len(), |i: int| decimal(arrays[i].id as int)),
        ),
    }
}

/// How a report shows a value: a string as its raw text, everything else as
/// its natural text.  Value and default are shown by the same rule.
pub open spec fn format_text(value: ValueView) -> Seq<char> {
    match value {
        ValueView::Str(text) => text,
        other => json_text(other),
    }
}

fn shape_to_text(shape: &Vec<usize>) -> (text: String)
    ensures
        text@ == shape_text(shape.deep_view()),
{
    let mut texts: Vec<String> = Vec::new();
    let mut i: usize = 0;
    while i < shape.len()
        invariant
            i <= shape.len(),
            texts.len() == i,
            forall|j: int| 0 <= j < i ==> texts[j]@ == decimal(shape[j] as int),
        decreases shape.len() - i,
    {
        texts.push(digits_text(shape[i] as u64));
        i += 1;
    }
    assert(texts.deep_view() =~= Seq::new(
        shape.deep_view().len(),
        |i: int| decimal(shape.deep_view()[i] as int),
    ));
    list_of(&texts)
}

fn shape_list_to_text(shapes: &Vec<Vec<usize>>) -> (text: String)
    ensures
        text@ == shape_list_text(shapes.deep_view()),
{
    let mut texts: Vec<String> = Vec::new();
    let mut i: usize = 0;
    while i < shapes.len()
        invariant
            i <= shapes.len(),
            texts.len() == i,
            forall|j: int| 0 <= j < i ==> texts[j]@ == shape_text(shapes[j].deep_view()),
        decreases shapes.len() - i,
    {
        texts.push(shape_to_text(&shapes[i]));
        i += 1;
    }
    assert(texts.deep_view() =~= Seq::new(
        shapes.deep_view().len(),
        |i: int| shape_text(shapes.deep_view()[i]),
    ));
    list_of(&texts)
}

fn shape_sets_to_text(sets: &Vec<Vec<Vec<usize>>>) -> (text: String)
    ensures
        text@ == shape_sets_text(sets.deep_view()),
{
    let mut texts: Vec<String> = Vec::new();
    let mut i: usize = 0;
    while i < sets.len()
        invariant
            i <= sets.len(),
            texts.len() == i,
            forall|j: int| 0 <= j < i ==> texts[j]@ == shape_list_text(sets[j].deep_view()),
        decreases sets.len() - i,
    {
        texts.push(shape_list_to_text(&sets[i]));
        i += 1;
    }
    assert(texts.deep_view() =~= Seq::new(
        sets.deep_view().len(),
        |i: int| shape_list_text(sets.deep_view()[i]),
    ));
    list_of(&texts)
}

fn number_to_text(number: &Decimal) -> (text: String)
    ensures
        text@ == number_text(number@),
{
    let name = number.text.as_str();
    if str_eq(name, "NaN") || str_eq(name, "inf") || str_eq(name, "-inf") {
        "null".to_owned()
    } else {
        number.text.copy()
    }
}

fn float_list_to_text(items: &Vec<Decimal>) -> (text: String)
    ensures
        text@ == json_text(ValueView::FloatList(items.deep_view())),
{
    let mut texts: Vec<String> = Vec::new();
    let mut i: usize = 0;
    while i < items.len()
        invariant
            i <= items.len(),
            texts.len() == i,
            forall|j: int| 0 <= j < i ==> texts[j]@ == number_text(items[j]@),
        decreases items.len() - i,
    {
        texts.push(number_to_text(&items[i]));
        i += 1;
    }
    assert(texts.deep_view() =~= Seq::new(
        items.deep_view().len(),
        |i: int| number_text(items.deep_view()[i]),
    ));
    list_of(&texts)
}

fn str_list_to_text(items: &Vec<String>) -> (text: String)
    ensures
        text@ == list_text(
            Seq::new(items.deep_view().len(), |i: int| json_string(items.deep_view()[i])),
        ),
{
    let mut texts: Vec<String> = Vec::new();
    let mut i: usize = 0;
    while i < items.len()
        invariant
            i <= items.len(),
            texts.len() == i,
            forall|j: int| 0 <= j < i ==> texts[j]@ == json_string(items[j]@),
        decreases items.len() - i,
    {
        texts.push(quote_json(items[i].as_str()));
        i += 1;
    }
    assert(texts.deep_view() =~= Seq::new(
        items.deep_view().len(),
        |i: int| json_string(items.deep_view()[i]),
    ));
    list_of(&texts)
}

fn str_map_to_text(entries: &Vec<(String, String)>) -> (text: String)
    ensures
        text@ == json_text(ValueView::StrMap(entries.deep_view())),
{
    proof {
        reveal_strlit("{");
        reveal_strlit("}");
        reveal_strlit(":");
        reveal_strlit(",");
    }
    let mut texts: Vec<String> = Vec::new();
    let mut i: usize = 0;
    while i < entries.len()
        invariant
            i <= entries.len(),
            texts.len() == i,
            ":"@ == seq![':'],
            forall|j: int| 0 <= j < i ==> texts[j]@ == entry_text(entries.deep_view()[j]),
        decreases entries.len() - i,
    {
        let mut entry = quote_json(entries[i].0.as_str());
        entry.append(":");
        entry.append(quote_json(entries[i].1.as_str()).as_str());
        texts.push(entry);
        i += 1;
    }
    assert(texts.deep_view() =~= Seq::new(
        entries.deep_view().len(),
        |i: int| entry_text(entries.deep_view()[i]),
    ));
    let mut text = "{".to_owned();
    text.append(join(&texts, ",").as_str());
    text.append("}");
    assert("{"@ =~= seq!['{']);
    assert("}"@ =~= seq!['}']);
    assert(","@ =~= seq![',']);
    text
}

fn arrays_to_text(arrays: &Vec<ArrayHandle>) -> (text: String)
    ensures
        text@ == json_text(ValueView::Arrays(arrays.deep_view())),
{
    let mut texts: Vec<String> = Vec::new();
    let mut i: usize = 0;
    while i < arrays.len()
        invariant
            i <= arrays.len(),
            texts.len() == i,
            forall|j: int| 0 <= j < i ==> texts[j]@ == decimal(arrays[j].id as int),
        decreases arrays.len() - i,
    {
        texts.push(digits_text(arrays[i].id));
        i += 1;
    }
    assert(texts.deep_view() =~= Seq::new(
        arrays.deep_view().len(),
        |i: int| decimal(arrays.deep_view()[i].id as int),
    ));
    list_of(&texts)
}

/// The natural text of a value; see [`json_text`].
pub fn to_json_text(value: &Value) -> (text: String)
    ensures
        text@ == json_text(value@),
{
    match value {
        Value::Null => "null".to_owned(),
        Value::Bool(flag) => if *flag {
            "true".to_owned()
        } else {
            "false".to_owned()
        },
        Value::Int(number) => decimal_text(*number),
        Value::Float(number) => number_to_text(number),
        Value::Str(text) => quote_json(text.as_str()),
        Value::FloatList(items) => float_list_to_text(items),
        Value::StrList(items) => str_list_to_text(items),
        Value::ShapeList(shapes) => shape_list_to_text(shapes),
        Value::ShapeSets(sets) => shape_sets_to_text(sets),
        Value::StrMap(entries) => str_map_to_text(entries),
        Value::Arrays(arrays) => arrays_to_text(arrays),
    }
}

/// Formats a value for the report; see [`format_text`].
pub fn format_value(value: &Value) -> (text: String)
    ensures
        text@ == format_text(value@),
{
    match value {
        Value::Str(text) => text.copy(),
        _ => to_json_text(value),
    }
}

/// The value of the first field called `key`; `Null` where there is none.
pub open spec fn lookup(fields: Seq<FieldView>, key: Seq<char>) -> ValueView
    decreases fields.len(),
{
    if fields.len() == 0 {
        ValueView::Null
    } else if fields[0].name == key {
        fields[0].value
    } else {
        lookup(fields.skip(1), key)
    }
}

/// The value that `fields` holds under `key`: that of the first field with
/// this name, and `Null` where no field has it.
pub fn get_field_value(fields: &Vec<Field>, key: &str) -> (value: Value)
    ensures
        value@ == lookup(fields.deep_view(), key@),
{
    let ghost all = fields.deep_view();
    let mut i: usize = 0;
    assert(all.skip(0) =~= all);
    while i < fields.len()
        invariant
            i <= fields.len(),
            all == fields.deep_view(),
            lookup(all, key@) == lookup(all.skip(i as int), key@),
        decreases fields.len() - i,
    {
        assert(all.skip(i as int)[0] == all[i as int]);
        if str_eq(fields[i].name.as_str(), key) {
            return fields[i].value.copy();
        }
        assert(all.skip(i as int).skip(1) =~= all.skip(i + 1));
        i += 1;
    }
    assert(all.skip(fields.len() as int).len() == 0);
    Value::Null
}

/// One declared field of a section: its name and what it is for.
#[derive(Clone, Debug, PartialEq)]
pub struct FieldDoc {
    pub name: String,
    /// Empty where nothing is said about the field.
    pub description: String,
}

/// What a [`FieldDoc`] means.
pub struct FieldDocView {
    pub name: Seq<char>,
    pub description: Seq<char>,
}

impl DeepView for FieldDoc {
    type V = FieldDocView;

    open spec fn deep_view(&self) -> FieldDocView {
        FieldDocView { name: self.name@, description: self.description@ }
    }
}

impl View for FieldDoc {
    type V = FieldDocView;

    open spec fn view(&self) -> FieldDocView {
        self.deep_view()
    }
}

impl FieldDoc {
    /// The declared field `name`, described by `description`.
    pub fn new(name: &str, description: &str) -> (doc: FieldDoc)
        ensures
            doc@ == (FieldDocView { name: name@, description: description@ }),
    {
        FieldDoc { name: name.to_owned(), description: description.to_owned() }
    }
}

/// One row of a report.
#[derive(Clone, Debug, PartialEq)]
pub struct Row {
    pub key: String,
    /// The current value, formatted.
    pub value: String,
    /// The default, formatted by the same rule.
    pub default: String,
    /// Whether the current value differs from the default.
    pub set_by_user: bool,
    pub description: String,
}

/// What a [`Row`] means.
pub struct RowView {
    pub key: Seq<char>,
    pub value: Seq<char>,
    pub default: Seq<char>,
    pub set_by_user: bool,
    pub description: Seq<char>,
}

impl DeepView for Row {
    type V = RowView;

    open spec fn deep_view(&self) -> RowView {
        RowView {
            key: self.key@,
            value: self.value@,
            default: self.default@,
            set_by_user: self.set_by_user,
            description: self.description@,
        }
    }
}

impl View for Row {
    type V = RowView;

    open spec fn view(&self) -> RowView {
        self.deep_view()
    }
}

/// The row of the declared field `doc`: its name, the value that `fields`
/// holds under that name and the one that `defaults` holds, both formatted
/// alike, whether the two differ, and the description.
pub open spec fn spec_row(
    doc: FieldDocView,
    fields: Seq<FieldView>,
    defaults: Seq<FieldView>,
) -> RowView {
    RowView {
        key: doc.name,
        value: format_text(lookup(fields, doc.name)),
        default: format_text(lookup(defaults, doc.name)),
        set_by_user: lookup(fields, doc.name) != lookup(defaults, doc.name),
        description: doc.description,
    }
}

/// The rows of a report: one for each declared field, in declared order.
pub open spec fn spec_rows(
    schema: Seq<FieldDocView>,
    fields: Seq<FieldView>,
    defaults: Seq<FieldView>,
) -> Seq<RowView> {
    Seq::new(schema.len(), |i: int| spec_row(schema[i], fields, defaults))
}

/// The rows of the report of a section: one for each field that `schema`
/// declares, in the order of `schema`, contrasting `fields` with `defaults`.
pub fn section_rows(schema: &Vec<FieldDoc>, fields: &Vec<Field>, defaults: &Vec<Field>) -> (rows:
    Vec<Row>)
    ensures
        rows.len() == schema.len(),
        rows.deep_view() == spec_rows(
            schema.deep_view(),
            fields.deep_view(),
            defaults.deep_view(),
        ),
{
    let mut rows: Vec<Row> = Vec::new();
    let mut i: usize = 0;
    while i < schema.len()
        invariant
            i <= schema.len(),
            rows.len() == i,
            forall|j: int|
                0 <= j < i ==> rows[j]@ == spec_row(
                    schema[j]@,
                    fields.deep_view(),
                    defaults.deep_view(),
                ),
        decreases schema.len() - i,
    {
        let key = schema[i].name.as_str();
        let value = get_field_value(fields, key);
        let default = get_field_value(defaults, key);
        let row = Row {
            key: schema[i].name.copy(),
            value: format_value(&value),
            default: format_value(&default),
            set_by_user: !value.same(&default),
            description: schema[i].description.copy(),
        };
        rows.push(row);
        i += 1;
    }
    assert(rows.deep_view() =~= spec_rows(
        schema.deep_view(),
        fields.deep_view(),
        defaults.deep_view(),
    ));
    rows
}

/// The cells of the heading of a report.
pub open spec fn heading_cells() -> Seq<Seq<char>> {
    seq!["Key"@, "Value"@, "Default"@, "Set by User?"@, "Description"@]
}

/// The cells of a row: key, value, default, `Yes` or `No`, description.
pub open spec fn row_cells(row: RowView) -> Seq<Seq<char>> {
    seq![
        row.key,
        row.value,
        row.default,
        if row.set_by_user {
            "Yes"@
        } else {
            "No"@
        },
        row.description,
    ]
}

/// The cells of a table: the heading, then the rows.
pub open spec fn table_cells(rows: Seq<RowView>) -> Seq<Seq<Seq<char>>> {
    seq![heading_cells()] + Seq::new(rows.len(), |i: int| row_cells(rows[i]))
}

#[verifier::external_type_specification]
#[verifier::external_body]
pub struct ExTable(stanza::table::Table);

/// The rows of a `stanza` table, each the texts of its cells.
pub uninterp spec fn table_rows(table: stanza::table::Table) -> Seq<Seq<Seq<char>>>;

/// Whether a `stanza` table is plain: it carries no style anywhere, every
/// cell is a text, and it has as many columns as its widest row has cells.
pub uninterp spec fn table_is_plain(table: stanza::table::Table) -> bool;

/// The text that the console renderer of `stanza` draws, in its default
/// decoration, for a plain table with these rows.
pub uninterp spec fn console_text(rows: Seq<Seq<Seq<char>>>) -> Seq<char>;

/// Makes an empty table with `Table::default`: no styles, no columns, no
/// rows.
#[verifier::external_body]
fn new_table() -> (table: stanza::table::Table)
    ensures
        table_rows(table) == Seq::<Seq<Seq<char>>>::empty(),
        table_is_plain(table),
{
    stanza::table::Table::default()
}

/// Appends a row with `Table::push_row`: one unstyled cell for each text, in
/// order, and as many unstyled columns as the row needs beyond those that
/// are there.  The rows before it stay as they are.
#[verifier::external_body]
fn push_row(table: &mut stanza::table::Table, cells: &Vec<String>)
    ensures
        table_rows(*final(table)) == table_rows(*old(table)).push(cells.deep_view()),
        table_is_plain(*old(table)) ==> table_is_plain(*final(table)),
{
    table.push_row(cells)
}

/// Draws the table with `Console::default().render`.  The renderer refuses a
/// table without rows or without columns, so the first row must hold a
/// cell.  What it draws for a plain table depends on the texts of the cells
/// alone.
#[verifier::external_body]
fn render_console(table: &stanza::table::Table) -> (text: String)
    requires
        table_is_plain(*table),
        table_rows(*table).len() > 0,
        table_rows(*table)[0].len() > 0,
    ensures
        text@ == console_text(table_rows(*table)),
{
    stanza::renderer::Renderer::render(&stanza::renderer::console::Console::default(), table)
}

fn cells_of(row: &Row) -> (cells: Vec<String>)
    ensures
        cells.deep_view() == row_cells(row@),
{
    let mut cells: Vec<String> = Vec::new();
    cells.push(row.key.copy());
    cells.push(row.value.copy());
    cells.push(row.default.copy());
    cells.push(
        if row.set_by_user {
            "Yes".to_owned()
        } else {
            "No".to_owned()
        },
    );
    cells.push(row.description.copy());
    assert(cells.deep_view() =~= row_cells(row@));
    cells
}

/// The report of a section in text: the title between square brackets on a
/// line of its own, the table, and an empty line.
pub open spec fn section_text(title: Seq<char>, rows: Seq<RowView>) -> Seq<char> {
    seq!['['] + title + seq![']', '\n'] + console_text(table_cells(rows)) + seq!['\n', '\n']
}

/// Draws `rows` as a table under `title`; see [`section_text`].
pub fn render_section(title: &str, rows: &Vec<Row>) -> (text: String)
    ensures
        text@ == section_text(title@, rows.deep_view()),
{
    let mut heading: Vec<String> = Vec::new();
    heading.push("Key".to_owned());
    heading.push("Value".to_owned());
    heading.push("Default".to_owned());
    heading.push("Set by User?".to_owned());
    heading.push("Description".to_owned());
    assert(heading.deep_view() =~= heading_cells());
    let mut table = new_table();
    push_row(&mut table, &heading);
    let mut i: usize = 0;
    assert(table_rows(table) =~= table_cells(rows.deep_view().take(0)));
    while i < rows.len()
        invariant
            i <= rows.len(),
            table_is_plain(table),
            table_rows(table) == table_cells(rows.deep_view().take(i as int)),
        decreases rows.len() - i,
    {
        let cells = cells_of(&rows[i]);
        push_row(&mut table, &cells);
        assert(table_rows(table) =~= table_cells(rows.deep_view().take(i + 1)));
        i += 1;
    }
    assert(rows.deep_view().take(rows.len() as int) =~= rows.deep_view());
    proof {
        reveal_strlit("[");
        reveal_strlit("]\n");
        reveal_strlit("\n\n");
    }
    let mut text = "[".to_owned();
    text.append(title);
    text.append("]\n");
    text.append(render_console(&table).as_str());
    text.append("\n\n");
    assert("["@ =~= seq!['[']);
    assert("]\n"@ =~= seq![']', '\n']);
    assert("\n\n"@ =~= seq!['\n', '\n']);
    text
}

/// The report of one section: a table with one row for each field that
/// `schema` declares, contrasting the section's `fields` with the `defaults`
/// of its kind, under `title`.
pub fn add_section(
    title: &str,
    schema: &Vec<FieldDoc>,
    fields: &Vec<Field>,
    defaults: &Vec<Field>,
) -> (text: String)
    ensures
        text@ == section_text(
            title@,
            spec_rows(schema.deep_view(), fields.deep_view(), defaults.deep_view()),
        ),
{
    let rows = section_rows(schema, fields, defaults);
    render_section(title, &rows)
}

/// Whether `schema` declares exactly the fields of `fields`, in their order.
pub open spec fn declares(schema: Seq<FieldDocView>, fields: Seq<FieldView>) -> bool {
    &&& schema.len() == fields.len()
    &&& forall|i: int| 0 <= i < schema.len() ==> schema[i].name == fields[i].name
}

/// Among fields with distinct names, looking a field up by its name finds
/// its own value.
pub proof fn lemma_lookup_own(fields: Seq<FieldView>, index: int)
    requires
        names_distinct(fields),
        0 <= index < fields.len(),
    ensures
        lookup(fields, fields[index].name) == fields[index].value,
    decreases index,
{
    if index > 0 {
        let rest = fields.skip(1);
        assert forall|i: int, j: int| 0 <= i < j < rest.len() implies rest[i].name
            != rest[j].name by {
            assert(rest[i] == fields[i + 1]);
            assert(rest[j] == fields[j + 1]);
        }
        assert(rest[index - 1] == fields[index]);
        lemma_lookup_own(rest, index - 1);
    }
}

/// A section that equals its defaults reports no field as set by the user.
pub proof fn lemma_defaults_report_unset(schema: Seq<FieldDocView>, defaults: Seq<FieldView>)
    ensures
        forall|i: int|
            0 <= i < schema.len() ==> !(#[trigger] spec_rows(
                schema,
                defaults,
                defaults,
            )[i]).set_by_user,
{
}

/// A section that differs from its defaults in one field, which holds
/// another value than its default, reports exactly that field as set by the
/// user.
pub proof fn lemma_one_field_reports_set(
    schema: Seq<FieldDocView>,
    defaults: Seq<FieldView>,
    index: int,
    value: ValueView,
)
    requires
        declares(schema, defaults),
        names_distinct(defaults),
        0 <= index < defaults.len(),
        value != defaults[index].value,
    ensures
        forall|i: int|
            0 <= i < schema.len() ==> (#[trigger] spec_rows(
                schema,
                with_value(defaults, index, value),
                defaults,
            )[i]).set_by_user == (i == index),
{
    let changed = with_value(defaults, index, value);
    assert forall|i: int| 0 <= i < schema.len() implies (#[trigger] spec_rows(
        schema,
        changed,
        defaults,
    )[i]).set_by_user == (i == index) by {
        assert forall|a: int, b: int| 0 <= a < b < changed.len() implies changed[a].name
            != changed[b].name by {
            assert(changed[a].name == defaults[a].name);
            assert(changed[b].name == defaults[b].name);
        }
        lemma_lookup_own(defaults, i);
        lemma_lookup_own(changed, i);
        assert(changed[i].name == schema[i].name);
    }
}

} // verus!
