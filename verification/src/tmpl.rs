//! Output templates: descriptor assembly and template rendering.
//!
//! A table's buffered describe rows are folded into one `Table` descriptor
//! each — one `Field` per describe row, built from the row's self-describing
//! column-name/data-type/nullable cells — and the descriptors are rendered
//! through the fixed built-in template into generated source text.

use vstd::prelude::*;
use vstd::string::StringExecFns;
use vstd::utf8::encode_utf8;
use vstd::utf8::valid_utf8;
use std::collections::HashMap;
use crate::error::Error;
use crate::mapper::apply_nullable;
use crate::mapper::map_type;
use crate::mapper::spec_apply_nullable;
use crate::mapper::spec_map_type;
use crate::mapper::str_eq;
use crate::store::CellV;
use crate::store::QueryDataByCol;
use crate::store::RowV;
use crate::store::Rows;
use crate::store::TableEntryV;
use crate::store::TableMap;
use crate::store::cells_view;
use crate::store::spec_cell_text;

verus! {

/// The identifier-cased form that inflector's `to_snake_case` gives a string.
pub uninterp spec fn snake_of(s: Seq<char>) -> Seq<char>;

/// The identifier-cased form that inflector's `to_pascal_case` gives a string.
pub uninterp spec fn pascal_of(s: Seq<char>) -> Seq<char>;

/// Relies on inflector's `to_snake_case`: the result is a function of the
/// characters alone.
#[verifier::external_body]
fn snake_case(s: &str) -> (r: String)
    ensures
        r@ == snake_of(s@),
{
    inflector::cases::snakecase::to_snake_case(s)
}

/// Relies on inflector's `to_pascal_case`: the result is a function of the
/// characters alone.
#[verifier::external_body]
fn pascal_case(s: &str) -> (r: String)
    ensures
        r@ == pascal_of(s@),
{
    inflector::cases::pascalcase::to_pascal_case(s)
}

/// Ghost form of one field descriptor.
pub ghost struct FieldV {
    /// The generated field name.
    pub field_name: Seq<char>,
    /// The generated field type.
    pub field_type: Seq<char>,
    /// The nullable flag; unset unless an explicit marker was seen.
    pub nullable: Option<bool>,
}

/// `Field` information used for the template: the generated-code view of one
/// column. The nullable flag is set only by an explicit "Y"/"N" catalog
/// marker; any other marker leaves it unset.
#[derive(Debug)]
pub struct Field {
    /// The field name tag.
    pub field_name: String,
    /// The field type tag.
    pub field_type: String,
    /// Whether this field is nullable, where the catalog said so explicitly.
    pub nullable: Option<bool>,
}

impl View for Field {
    type V = FieldV;

    open spec fn view(&self) -> FieldV {
        FieldV {
            field_name: self.field_name@,
            field_type: self.field_type@,
            nullable: self.nullable,
        }
    }
}

/// Ghost form of one derive tag.
pub ghost struct DeriveV {
    /// The derive name.
    pub name: Seq<char>,
    /// Whether a trailing comma follows it.
    pub comma: bool,
}

/// `Derive` information used for the template.
#[derive(Debug)]
pub struct Derive {
    /// The derive name.
    pub name: String,
    /// Include a trailing comma?
    pub comma: bool,
}

impl View for Derive {
    type V = DeriveV;

    open spec fn view(&self) -> DeriveV {
        DeriveV { name: self.name@, comma: self.comma }
    }
}

/// Ghost form of one table descriptor.
pub ghost struct TableV {
    /// The derive tags, in emission order.
    pub derives: Seq<DeriveV>,
    /// The generated struct name.
    pub struct_name: Seq<char>,
    /// The field descriptors, in catalog column order.
    pub field: Seq<FieldV>,
}

/// `Table` information used for the template: one generated type definition.
#[derive(Debug)]
pub struct Table {
    /// The list of derives.
    pub derives: Vec<Derive>,
    /// The struct name tag.
    pub struct_name: String,
    /// The struct fields.
    pub field: Vec<Field>,
}

impl View for Table {
    type V = TableV;

    open spec fn view(&self) -> TableV {
        TableV {
            derives: self.derives@.map_values(|d: Derive| d@),
            struct_name: self.struct_name@,
            field: self.field@.map_values(|f: Field| f@),
        }
    }
}

/// `File` information used for the template: the tables of one render call.
#[derive(Debug)]
pub struct File {
    /// Tables rendered by this template.
    pub tables: Vec<Table>,
}

impl View for File {
    type V = Seq<TableV>;

    open spec fn view(&self) -> Seq<TableV> {
        self.tables@.map_values(|t: Table| t@)
    }
}

/// The state of one field descriptor while its row's cells are folded in.
pub ghost struct FieldState {
    /// The generated field name, once a column-name cell was seen.
    pub name: Option<Seq<char>>,
    /// The mapped type text so far.
    pub ty: Seq<char>,
    /// Whether a data-type cell was seen.
    pub ty_set: bool,
    /// The nullable flag so far.
    pub nullable: Option<bool>,
}

/// The field state before any cell of the row was read.
pub open spec fn init_field_state() -> FieldState {
    FieldState { name: Option::None, ty: Seq::<char>::empty(), ty_set: false, nullable: Option::None }
}

/// One cell's contribution to its field descriptor. A column-name cell sets
/// the field name to the snake-cased, table-qualified column name; a
/// data-type cell maps the native type; a nullable cell applies the
/// nullability rule to the type mapped so far; any other cell is ignored.
pub open spec fn spec_field_step(table: Seq<char>, st: FieldState, c: CellV) -> FieldState {
    if c.column_name == "COLUMN_NAME"@ {
        FieldState {
            name: Option::Some(snake_of(table + "_"@ + spec_cell_text(c))),
            ty: st.ty,
            ty_set: st.ty_set,
            nullable: st.nullable,
        }
    } else if c.column_name == "DATA_TYPE"@ {
        FieldState {
            name: st.name,
            ty: spec_map_type(spec_cell_text(c)),
            ty_set: true,
            nullable: st.nullable,
        }
    } else if c.column_name == "NULLABLE"@ {
        FieldState {
            name: st.name,
            ty: spec_apply_nullable(st.ty, st.nullable, spec_cell_text(c)).0,
            ty_set: st.ty_set,
            nullable: spec_apply_nullable(st.ty, st.nullable, spec_cell_text(c)).1,
        }
    } else {
        st
    }
}

/// The field state after the first `upto` cells of a row.
pub open spec fn spec_field_fold(table: Seq<char>, cells: Seq<CellV>, upto: int) -> FieldState
    decreases upto,
{
    if upto <= 0 {
        init_field_state()
    } else {
        spec_field_step(table, spec_field_fold(table, cells, upto - 1), cells[upto - 1])
    }
}

/// What assembling one describe row yields: a field descriptor, or the name
/// of the required descriptor field that no cell populated.
pub open spec fn spec_assemble_field(table: Seq<char>, cells: Seq<CellV>) -> Result<
    FieldV,
    Seq<char>,
> {
    let st = spec_field_fold(table, cells, cells.len() as int);
    if st.name is None {
        Result::Err("field_name"@)
    } else if !st.ty_set {
        Result::Err("field_type"@)
    } else {
        Result::Ok(
            FieldV { field_name: st.name->0, field_type: st.ty, nullable: st.nullable },
        )
    }
}

/// What assembling the first `upto` describe rows yields: one field per row
/// in row-index order, or the first row's missing-field failure.
pub open spec fn spec_assemble_fields(table: Seq<char>, rows: Seq<RowV>, upto: int) -> Result<
    Seq<FieldV>,
    Seq<char>,
>
    decreases upto,
{
    if upto <= 0 {
        Result::Ok(Seq::<FieldV>::empty())
    } else {
        match spec_assemble_fields(table, rows, upto - 1) {
            Result::Err(e) => Result::Err(e),
            Result::Ok(fs) => match spec_assemble_field(table, rows[upto - 1].cells) {
                Result::Err(e) => Result::Err(e),
                Result::Ok(f) => Result::Ok(fs.push(f)),
            },
        }
    }
}

/// The fixed derive tags emitted for every generated struct, with a comma
/// after each but the last.
pub open spec fn spec_derives() -> Seq<DeriveV> {
    seq![
        DeriveV { name: "Clone"@, comma: true },
        DeriveV { name: "Default"@, comma: true },
        DeriveV { name: "Debug"@, comma: true },
        DeriveV { name: "Eq"@, comma: true },
        DeriveV { name: "Hash"@, comma: true },
        DeriveV { name: "PartialEq"@, comma: false },
    ]
}

/// What assembling a whole table yields: the pascal-cased struct name, the
/// fixed derive tags, and one field per describe row, or the first
/// missing-field failure.
pub open spec fn spec_assemble(table: Seq<char>, rows: Seq<RowV>) -> Result<TableV, Seq<char>> {
    match spec_assemble_fields(table, rows, rows.len() as int) {
        Result::Err(e) => Result::Err(e),
        Result::Ok(fs) => Result::Ok(
            TableV { derives: spec_derives(), struct_name: pascal_of(table), field: fs },
        ),
    }
}

/// A successful assembly has exactly one field descriptor per describe row.
pub proof fn lemma_assemble_count(table: Seq<char>, rows: Seq<RowV>, upto: int)
    requires
        0 <= upto <= rows.len(),
    ensures
        spec_assemble_fields(table, rows, upto) is Ok ==> spec_assemble_fields(
            table,
            rows,
            upto,
        )->Ok_0.len() == upto,
    decreases upto,
{
    if upto > 0 {
        lemma_assemble_count(table, rows, upto - 1);
    }
}

/// Assemble one field descriptor from one describe row's cells.
fn assemble_field(table_name: &str, cells: &Vec<QueryDataByCol>) -> (r: Result<Field, Error>)
    ensures
        r is Ok <==> spec_assemble_field(table_name@, cells_view(cells@)) is Ok,
        r is Ok ==> r->Ok_0@ == spec_assemble_field(table_name@, cells_view(cells@))->Ok_0,
        r is Err ==> (r->Err_0 matches Error::Build(f) && f@ == spec_assemble_field(
            table_name@,
            cells_view(cells@),
        )->Err_0),
{
    let ghost cs = cells_view(cells@);
    let mut name: Option<String> = Option::None;
    let mut ty: String = String::new();
    let mut ty_set: bool = false;
    let mut nullable: Option<bool> = Option::None;
    let mut k: usize = 0;
    while k < cells.len()
        invariant
            k <= cells.len(),
            cs == cells_view(cells@),
            ({
                let st = spec_field_fold(table_name@, cs, k as int);
                &&& (match name {
                    Option::Some(s) => Option::Some(s@),
                    Option::None => Option::None,
                }) == st.name
                &&& ty@ == st.ty
                &&& ty_set == st.ty_set
                &&& nullable == st.nullable
            }),
        decreases cells.len() - k,
    {
        proof {
            assert(cs[k as int] == cells@[k as int]@);
        }
        let c = &cells[k];
        if str_eq(c.column_name.as_str(), "COLUMN_NAME") {
            let data = c.display_text();
            let mut qualified = table_name.to_owned();
            qualified.append("_");
            qualified.append(data.as_str());
            name = Option::Some(snake_case(qualified.as_str()));
        } else if str_eq(c.column_name.as_str(), "DATA_TYPE") {
            let data = c.display_text();
            ty = map_type(data.as_str());
            ty_set = true;
        } else if str_eq(c.column_name.as_str(), "NULLABLE") {
            let data = c.display_text();
            let applied = apply_nullable(ty, nullable, data.as_str());
            ty = applied.0;
            nullable = applied.1;
        }
        k = k + 1;
    }
    match name {
        Option::None => Result::Err(Error::Build(String::from_str("field_name"))),
        Option::Some(n) => {
            if !ty_set {
                Result::Err(Error::Build(String::from_str("field_type")))
            } else {
                Result::Ok(Field { field_name: n, field_type: ty, nullable })
            }
        },
    }
}

/// Assemble one table descriptor from its buffered describe rows: one field
/// per row in row-index order, the fixed derive tags, and the pascal-cased
/// struct name. Fails with the build error naming the first required
/// descriptor field that no cell populated.
pub fn assemble(table_name: &str, rows: &Rows) -> (r: Result<Table, Error>)
    ensures
        r is Ok <==> spec_assemble(table_name@, rows@) is Ok,
        r is Ok ==> r->Ok_0@ == spec_assemble(table_name@, rows@)->Ok_0,
        r is Ok ==> r->Ok_0@.field.len() == rows@.len(),
        r is Err ==> (r->Err_0 matches Error::Build(f) && f@ == spec_assemble(
            table_name@,
            rows@,
        )->Err_0),
{
    let mut fields: Vec<Field> = Vec::new();
    let n = rows.len();
    let mut i: usize = 0;
    while i < n
        invariant
            i <= n,
            n == rows@.len(),
            spec_assemble_fields(table_name@, rows@, i as int) is Ok,
            fields@.map_values(|f: Field| f@) == spec_assemble_fields(
                table_name@,
                rows@,
                i as int,
            )->Ok_0,
        decreases n - i,
    {
        let (_, cells) = rows.row_at(i);
        let fr = assemble_field(table_name, cells);
        match fr {
            Result::Err(e) => {
                proof {
                    lemma_assemble_first_error(table_name@, rows@, i as int);
                }
                return Result::Err(e);
            },
            Result::Ok(f) => {
                fields.push(f);
                proof {
                    assert(fields@.map_values(|f: Field| f@) =~= spec_assemble_fields(
                        table_name@,
                        rows@,
                        i + 1,
                    )->Ok_0);
                }
            },
        }
        i = i + 1;
    }
    let mut derives: Vec<Derive> = Vec::new();
    derives.push(Derive { name: String::from_str("Clone"), comma: true });
    derives.push(Derive { name: String::from_str("Default"), comma: true });
    derives.push(Derive { name: String::from_str("Debug"), comma: true });
    derives.push(Derive { name: String::from_str("Eq"), comma: true });
    derives.push(Derive { name: String::from_str("Hash"), comma: true });
    derives.push(Derive { name: String::from_str("PartialEq"), comma: false });
    proof {
        assert(derives@.map_values(|d: Derive| d@) =~= spec_derives());
        lemma_assemble_count(table_name@, rows@, rows@.len() as int);
    }
    let struct_name = pascal_case(table_name);
    Result::Ok(Table { derives, struct_name, field: fields })
}

/// A failure of row `i` is the whole assembly's failure when every earlier
/// row assembled.
proof fn lemma_assemble_first_error(table: Seq<char>, rows: Seq<RowV>, i: int)
    requires
        0 <= i < rows.len(),
        spec_assemble_fields(table, rows, i) is Ok,
        spec_assemble_field(table, rows[i].cells) is Err,
    ensures
        spec_assemble(table, rows) is Err,
        spec_assemble(table, rows)->Err_0 == spec_assemble_field(table, rows[i].cells)->Err_0,
    decreases rows.len() - i,
{
    assert(spec_assemble_fields(table, rows, i + 1) is Err);
    assert(spec_assemble_fields(table, rows, i + 1)->Err_0 == spec_assemble_field(
        table,
        rows[i].cells,
    )->Err_0);
    lemma_assemble_error_persists(table, rows, i + 1, rows.len() as int);
}

/// A describe row with the three tagged cells, as the catalog emits them.
pub open spec fn spec_tagged_row(column: Seq<char>, data_type: Seq<char>, marker: Seq<char>) -> Seq<
    CellV,
> {
    seq![
        CellV {
            column_name: "COLUMN_NAME"@,
            native_type: "VARCHAR2"@,
            data: Option::Some(column),
        },
        CellV { column_name: "DATA_TYPE"@, native_type: "VARCHAR2"@, data: Option::Some(data_type) },
        CellV { column_name: "NULLABLE"@, native_type: "VARCHAR2"@, data: Option::Some(marker) },
    ]
}

/// Law of the descriptor round trip. A describe row built from a "NUMBER"
/// column marked nullable assembles into the nullable-wrapped
/// floating-point field; one from "VARCHAR2" marked non-nullable into the
/// bare text field; and an unrecognised native type assembles into the
/// empty unknown sentinel, whatever the marker says of nullability.
pub proof fn lemma_descriptor_round_trip(table: Seq<char>, column: Seq<char>, other: Seq<char>)
    requires
        other != "NUMBER"@,
        other != "VARCHAR2"@,
    ensures
        spec_assemble_field(table, spec_tagged_row(column, "NUMBER"@, "Y"@)) == Result::<
            FieldV,
            Seq<char>,
        >::Ok(
            FieldV {
                field_name: snake_of(table + "_"@ + column),
                field_type: "Option<f64>"@,
                nullable: Option::Some(true),
            },
        ),
        spec_assemble_field(table, spec_tagged_row(column, "VARCHAR2"@, "N"@)) == Result::<
            FieldV,
            Seq<char>,
        >::Ok(
            FieldV {
                field_name: snake_of(table + "_"@ + column),
                field_type: "String"@,
                nullable: Option::Some(false),
            },
        ),
        spec_assemble_field(table, spec_tagged_row(column, other, "N"@))
            matches Result::<FieldV, Seq<char>>::Ok(f) && f.field_type == Seq::<char>::empty(),
{
    crate::mapper::lemma_mapping_round_trip();
    reveal_strlit("COLUMN_NAME");
    reveal_strlit("DATA_TYPE");
    reveal_strlit("NULLABLE");
    assert("COLUMN_NAME"@.len() == 11 && "DATA_TYPE"@.len() == 9 && "NULLABLE"@.len() == 8);
    reveal_strlit("Y");
    reveal_strlit("N");
    reveal_strlit("NUMBER");
    reveal_strlit("VARCHAR2");
    assert("Y"@.len() == 1 && "N"@.len() == 1 && "NUMBER"@.len() == 6 && "VARCHAR2"@.len() == 8);
    assert("Y"@[0] == 'Y' && "N"@[0] == 'N');
    assert("Y"@ != "N"@);
    let rows = [
        spec_tagged_row(column, "NUMBER"@, "Y"@),
        spec_tagged_row(column, "VARCHAR2"@, "N"@),
        spec_tagged_row(column, other, "N"@),
    ];
    assert forall|r: int| 0 <= r < 3 implies spec_field_fold(table, #[trigger] rows[r], 3)
        == spec_field_step(
        table,
        spec_field_step(table, spec_field_step(table, init_field_state(), rows[r][0]), rows[r][1]),
        rows[r][2],
    ) by {
        assert(spec_field_fold(table, rows[r], 0) == init_field_state());
        assert(spec_field_fold(table, rows[r], 1) == spec_field_step(
            table,
            init_field_state(),
            rows[r][0],
        ));
        assert(spec_field_fold(table, rows[r], 2) == spec_field_step(
            table,
            spec_field_fold(table, rows[r], 1),
            rows[r][1],
        ));
        assert(spec_field_fold(table, rows[r], 3) == spec_field_step(
            table,
            spec_field_fold(table, rows[r], 2),
            rows[r][2],
        ));
    }
    reveal_strlit("Option<");
    reveal_strlit(">");
    reveal_strlit("f64");
    reveal_strlit("Option<f64>");
    assert("Option<"@ + "f64"@ + ">"@ =~= "Option<f64>"@);
}

/// Table struct mustache template.
pub const ORM_TMPL: &'static str = "//! ORM generated by tyr
use error::Result;
use mimir::Connection;

{{#tables}}/// `{{struct_name}}` ORM
#[derive(Getters, MutGetters, Setters, {{#derives}}{{name}}{{#comma}}, {{/comma}}{{/derives}})]
pub struct {{struct_name}} {
    {{#field}}
    /// `{{field_name}}` column
    #[get = \"pub\"]
    #[set = \"pub\"]
    #[get_mut = \"pub\"]
    {{field_name}}: {{{field_type}}},
    {{/field}}
}

impl {{struct_name}} {
    /// Fetch a vector of `{{struct_name}}` from the given connection.  By default, all rows will be
    /// fetched.
    pub fn fetch(conn: &Connection) -> Result<Vec<{{struct_name}}>> {
        Ok(Vec::new())
    }
}
{{/tables}}";

/// Ghost form of a value handed to the template engine: text, a flag, a
/// list, or a dictionary of tagged values.
pub ghost enum DataModel {
    /// A text value.
    Str(Seq<char>),
    /// A boolean value.
    Flag(bool),
    /// An ordered list of values.
    List(Seq<DataModel>),
    /// Tag-to-value entries.
    Dict(Map<Seq<char>, DataModel>),
}

/// The template text a compiled template was compiled from.
pub uninterp spec fn tmpl_source(t: mustache::Template) -> Seq<char>;

/// What a template-engine data value holds.
pub uninterp spec fn data_model(d: mustache::Data) -> DataModel;

/// Whether a template-engine data value holds no function value anywhere:
/// rendering such data is deterministic in the template and the data alone,
/// since only the engine's function values carry mutable state. Every
/// constructor below builds only such values.
pub uninterp spec fn data_pure(d: mustache::Data) -> bool;

/// Whether a data value models a whole render call: the one shape the
/// fixed table template is ever rendered with.
pub open spec fn dm_is_file(d: DataModel) -> bool {
    exists|tables: Seq<TableV>| d == #[trigger] spec_file_dm(tables)
}

/// The bytes the template engine emits for the given template text and
/// function-free data. The name is applied only for the fixed table
/// template below, which holds no partial: compiling it reads nothing but
/// its text, so what the engine emits is a function of that text and the
/// data alone.
pub uninterp spec fn rendered(tmpl: Seq<char>, data: DataModel) -> Seq<u8>;

#[verifier::external_type_specification]
#[verifier::external_body]
pub struct ExTemplate(mustache::Template);

#[verifier::external_type_specification]
#[verifier::external_body]
pub struct ExData(mustache::Data);

/// Relies on mustache::compile_str: a compiled template carries exactly
/// the template text it was compiled from; and the fixed table template
/// compiles, since its four sections are balanced and it holds no partial
/// tag, so the parser reads nothing from disk and reaches no failing arm.
/// A refusal is handed back as the engine's diagnostic text; nothing is
/// claimed of that text.
#[verifier::external_body]
fn compile_template(s: &str) -> (r: Result<mustache::Template, String>)
    ensures
        r is Ok ==> tmpl_source(r->Ok_0) == s@,
        s@ == ORM_TMPL@ ==> r is Ok,
{
    match mustache::compile_str(s) {
        Ok(t) => Ok(t),
        Err(e) => Err(format!("{}", e)),
    }
}

/// Relies on mustache's Template::render_data writing into a byte buffer,
/// read against the fixed table template and file-shaped, function-free
/// data, the only inputs admitted here. Under them every interpolation tag
/// resolves to a text value or to nothing, every section to a flag, a
/// list or a dictionary — the arms the engine handles — and the template
/// holds no partial, so the walk over the token tree is bounded; writes
/// into the byte buffer cannot fail; and the emitted bytes, fragments of
/// the template text and of the data's text values, are valid UTF-8 and
/// depend on the template and the data alone.
#[verifier::external_body]
fn render_template(t: &mustache::Template, d: &mustache::Data) -> (r: Result<Vec<u8>, String>)
    requires
        tmpl_source(*t) == ORM_TMPL@,
        data_pure(*d),
        dm_is_file(data_model(*d)),
    ensures
        r is Ok,
        r is Ok ==> r->Ok_0@ == rendered(tmpl_source(*t), data_model(*d)),
        r is Ok ==> valid_utf8(r->Ok_0@),
{
    let mut out: Vec<u8> = Vec::new();
    match t.render_data(&mut out, d) {
        Ok(()) => Ok(out),
        Err(e) => Err(format!("{}", e)),
    }
}

/// Relies on the Data::Map and Data::String/Data::Bool constructors of
/// mustache's data tree: a two-entry dictionary for one derive tag.
#[verifier::external_body]
fn derive_data(name: String, comma: bool) -> (d: mustache::Data)
    ensures
        data_pure(d),
        data_model(d) == DataModel::Dict(
            Map::<Seq<char>, DataModel>::empty().insert("name"@, DataModel::Str(name@)).insert(
                "comma"@,
                DataModel::Flag(comma),
            ),
        ),
{
    let mut m = HashMap::new();
    m.insert("name".to_string(), mustache::Data::String(name));
    m.insert("comma".to_string(), mustache::Data::Bool(comma));
    mustache::Data::Map(m)
}

/// Relies on the Data::Map and Data::String constructors of mustache's data
/// tree: a dictionary holding the two tags the template reads of a field.
#[verifier::external_body]
fn field_data(field_name: String, field_type: String) -> (d: mustache::Data)
    ensures
        data_pure(d),
        data_model(d) == DataModel::Dict(
            Map::<Seq<char>, DataModel>::empty().insert(
                "field_name"@,
                DataModel::Str(field_name@),
            ).insert("field_type"@, DataModel::Str(field_type@)),
        ),
{
    let mut m = HashMap::new();
    m.insert("field_name".to_string(), mustache::Data::String(field_name));
    m.insert("field_type".to_string(), mustache::Data::String(field_type));
    mustache::Data::Map(m)
}

/// Relies on the Data::Map, Data::String and Data::Vec constructors of
/// mustache's data tree: the dictionary for one table.
#[verifier::external_body]
fn table_data(struct_name: String, derives: Vec<mustache::Data>, fields: Vec<mustache::Data>) -> (d:
    mustache::Data)
    requires
        forall|k: int| 0 <= k < derives@.len() ==> data_pure(#[trigger] derives@[k]),
        forall|k: int| 0 <= k < fields@.len() ==> data_pure(#[trigger] fields@[k]),
    ensures
        data_pure(d),
        data_model(d) == DataModel::Dict(
            Map::<Seq<char>, DataModel>::empty().insert(
                "struct_name"@,
                DataModel::Str(struct_name@),
            ).insert(
                "derives"@,
                DataModel::List(derives@.map_values(|x: mustache::Data| data_model(x))),
            ).insert(
                "field"@,
                DataModel::List(fields@.map_values(|x: mustache::Data| data_model(x))),
            ),
        ),
{
    let mut m = HashMap::new();
    m.insert("struct_name".to_string(), mustache::Data::String(struct_name));
    m.insert("derives".to_string(), mustache::Data::Vec(derives));
    m.insert("field".to_string(), mustache::Data::Vec(fields));
    mustache::Data::Map(m)
}

/// Relies on the Data::Map and Data::Vec constructors of mustache's data
/// tree: the one-entry dictionary holding the tables of a render call.
#[verifier::external_body]
fn file_data(tables: Vec<mustache::Data>) -> (d: mustache::Data)
    requires
        forall|k: int| 0 <= k < tables@.len() ==> data_pure(#[trigger] tables@[k]),
    ensures
        data_pure(d),
        data_model(d) == DataModel::Dict(
            Map::<Seq<char>, DataModel>::empty().insert(
                "tables"@,
                DataModel::List(tables@.map_values(|x: mustache::Data| data_model(x))),
            ),
        ),
{
    let mut m = HashMap::new();
    m.insert("tables".to_string(), mustache::Data::Vec(tables));
    mustache::Data::Map(m)
}

/// Relies on String::from_utf8: it succeeds exactly on valid UTF-8 and
/// decodes those bytes.
#[verifier::external_body]
fn bytes_to_string(v: Vec<u8>) -> (r: Option<String>)
    ensures
        r is Some <==> valid_utf8(v@),
        r matches Option::Some(s) ==> encode_utf8(s@) == v@,
{
    match String::from_utf8(v) {
        Ok(s) => Some(s),
        Err(_) => None,
    }
}

/// The engine data value standing for one derive tag.
pub open spec fn spec_derive_dm(d: DeriveV) -> DataModel {
    DataModel::Dict(
        Map::<Seq<char>, DataModel>::empty().insert("name"@, DataModel::Str(d.name)).insert(
            "comma"@,
            DataModel::Flag(d.comma),
        ),
    )
}

/// The engine data value standing for one field descriptor.
pub open spec fn spec_field_dm(f: FieldV) -> DataModel {
    DataModel::Dict(
        Map::<Seq<char>, DataModel>::empty().insert("field_name"@, DataModel::Str(f.field_name))
            .insert("field_type"@, DataModel::Str(f.field_type)),
    )
}

/// The engine data value standing for one table descriptor.
pub open spec fn spec_table_dm(t: TableV) -> DataModel {
    DataModel::Dict(
        Map::<Seq<char>, DataModel>::empty().insert("struct_name"@, DataModel::Str(t.struct_name))
            .insert("derives"@, DataModel::List(t.derives.map_values(|d: DeriveV| spec_derive_dm(d))))
            .insert("field"@, DataModel::List(t.field.map_values(|f: FieldV| spec_field_dm(f)))),
    )
}

/// The engine data value standing for a whole render call.
pub open spec fn spec_file_dm(tables: Seq<TableV>) -> DataModel {
    DataModel::Dict(
        Map::<Seq<char>, DataModel>::empty().insert(
            "tables"@,
            DataModel::List(tables.map_values(|t: TableV| spec_table_dm(t))),
        ),
    )
}

/// Convert one assembled table descriptor into the engine's data tree.
fn table_to_data(t: &Table) -> (d: mustache::Data)
    ensures
        data_pure(d),
        data_model(d) == spec_table_dm(t@),
{
    let mut derives: Vec<mustache::Data> = Vec::new();
    let mut i: usize = 0;
    while i < t.derives.len()
        invariant
            i <= t.derives@.len(),
            derives@.len() == i,
            forall|k: int| 0 <= k < i ==> data_pure(#[trigger] derives@[k]),
            forall|k: int|
                0 <= k < i ==> data_model(#[trigger] derives@[k]) == spec_derive_dm(t@.derives[k]),
        decreases t.derives@.len() - i,
    {
        let dv = &t.derives[i];
        derives.push(derive_data(dv.name.clone(), dv.comma));
        proof {
            assert(t@.derives[i as int] == t.derives@[i as int]@);
        }
        i = i + 1;
    }
    let mut fields: Vec<mustache::Data> = Vec::new();
    let mut j: usize = 0;
    while j < t.field.len()
        invariant
            j <= t.field@.len(),
            fields@.len() == j,
            forall|k: int| 0 <= k < j ==> data_pure(#[trigger] fields@[k]),
            forall|k: int|
                0 <= k < j ==> data_model(#[trigger] fields@[k]) == spec_field_dm(t@.field[k]),
        decreases t.field@.len() - j,
    {
        let fv = &t.field[j];
        fields.push(field_data(fv.field_name.clone(), fv.field_type.clone()));
        proof {
            assert(t@.field[j as int] == t.field@[j as int]@);
        }
        j = j + 1;
    }
    proof {
        assert(derives@.map_values(|x: mustache::Data| data_model(x)) =~= t@.derives.map_values(
            |d: DeriveV| spec_derive_dm(d),
        ));
        assert(fields@.map_values(|x: mustache::Data| data_model(x)) =~= t@.field.map_values(
            |f: FieldV| spec_field_dm(f),
        ));
    }
    table_data(t.struct_name.clone(), derives, fields)
}

/// Convert a whole render call's descriptors into the engine's data tree.
fn file_to_data(f: &File) -> (d: mustache::Data)
    ensures
        data_pure(d),
        data_model(d) == spec_file_dm(f@),
{
    let mut tables_data: Vec<mustache::Data> = Vec::new();
    let mut i: usize = 0;
    while i < f.tables.len()
        invariant
            i <= f.tables@.len(),
            tables_data@.len() == i,
            forall|k: int| 0 <= k < i ==> data_pure(#[trigger] tables_data@[k]),
            forall|k: int|
                0 <= k < i ==> data_model(#[trigger] tables_data@[k]) == spec_table_dm(f@[k]),
        decreases f.tables@.len() - i,
    {
        let d = table_to_data(&f.tables[i]);
        tables_data.push(d);
        proof {
            assert(f@[i as int] == f.tables@[i as int]@);
        }
        i = i + 1;
    }
    proof {
        assert(tables_data@.map_values(|x: mustache::Data| data_model(x)) =~= f@.map_values(
            |t: TableV| spec_table_dm(t),
        ));
    }
    file_data(tables_data)
}

/// What assembling the first `upto` registered tables yields: one table
/// descriptor per entry in list order, or the first missing-field failure.
pub open spec fn spec_assemble_tables(ts: Seq<TableEntryV>, upto: int) -> Result<
    Seq<TableV>,
    Seq<char>,
>
    decreases upto,
{
    if upto <= 0 {
        Result::Ok(Seq::<TableV>::empty())
    } else {
        match spec_assemble_tables(ts, upto - 1) {
            Result::Err(e) => Result::Err(e),
            Result::Ok(vs) => match spec_assemble(ts[upto - 1].name, ts[upto - 1].rows) {
                Result::Err(e) => Result::Err(e),
                Result::Ok(v) => Result::Ok(vs.push(v)),
            },
        }
    }
}

/// A failure of table `i` is the whole run's failure when every earlier
/// table assembled.
proof fn lemma_tables_first_error(ts: Seq<TableEntryV>, i: int)
    requires
        0 <= i < ts.len(),
        spec_assemble_tables(ts, i) is Ok,
        spec_assemble(ts[i].name, ts[i].rows) is Err,
    ensures
        spec_assemble_tables(ts, ts.len() as int) is Err,
        spec_assemble_tables(ts, ts.len() as int)->Err_0 == spec_assemble(
            ts[i].name,
            ts[i].rows,
        )->Err_0,
{
    lemma_tables_error_persists(ts, i + 1, ts.len() as int);
}

/// Once the table fold has failed at `upto`, it stays failed with the same
/// error.
proof fn lemma_tables_error_persists(ts: Seq<TableEntryV>, from: int, to: int)
    requires
        0 < from <= to <= ts.len(),
        spec_assemble_tables(ts, from) is Err,
    ensures
        spec_assemble_tables(ts, to) is Err,
        spec_assemble_tables(ts, to)->Err_0 == spec_assemble_tables(ts, from)->Err_0,
    decreases to - from,
{
    if from < to {
        lemma_tables_error_persists(ts, from + 1, to);
    }
}

/// Render the generated source for the registered tables through the fixed
/// built-in template, one emitted type definition per table, in list order.
/// Succeeds exactly when every table's descriptor assembles, and fails
/// with the build error naming the first required descriptor field that no
/// cell populated; on failure no output text is produced.
pub fn render(table_info: &TableMap) -> (r: Result<String, Error>)
    ensures
        r is Ok <==> spec_assemble_tables(table_info@, table_info@.len() as int) is Ok,
        r is Ok ==> encode_utf8(r->Ok_0@) == rendered(
            ORM_TMPL@,
            spec_file_dm(spec_assemble_tables(table_info@, table_info@.len() as int)->Ok_0),
        ),
        r is Err ==> (r->Err_0 matches Error::Build(f) && f@ == spec_assemble_tables(
            table_info@,
            table_info@.len() as int,
        )->Err_0),
{
    let template = match compile_template(ORM_TMPL) {
        Result::Err(e) => {
            proof {
                assert(false);
            }
            return Result::Err(Error::Template(e));
        },
        Result::Ok(t) => t,
    };
    let n = table_info.len();
    let mut tables: Vec<Table> = Vec::new();
    let mut i: usize = 0;
    while i < n
        invariant
            i <= n,
            n == table_info@.len(),
            tmpl_source(template) == ORM_TMPL@,
            spec_assemble_tables(table_info@, i as int) is Ok,
            tables@.len() == i,
            spec_assemble_tables(table_info@, i as int)->Ok_0.len() == i,
            forall|k: int|
                0 <= k < i ==> (#[trigger] tables@[k])@ == spec_assemble_tables(
                    table_info@,
                    i as int,
                )->Ok_0[k],
        decreases n - i,
    {
        let name = table_info.name_at(i);
        let rows = table_info.rows_at(i);
        let tr = assemble(name.as_str(), rows);
        match tr {
            Result::Err(e) => {
                proof {
                    lemma_tables_first_error(table_info@, i as int);
                }
                return Result::Err(e);
            },
            Result::Ok(t) => {
                tables.push(t);
                proof {
                    assert(spec_assemble_tables(table_info@, i + 1)->Ok_0 == spec_assemble_tables(
                        table_info@,
                        i as int,
                    )->Ok_0.push(tables@[i as int]@));
                }
            },
        }
        i = i + 1;
    }
    let file = File { tables };
    proof {
        assert(file@ =~= spec_assemble_tables(table_info@, n as int)->Ok_0);
    }
    let file_d = file_to_data(&file);
    proof {
        assert(dm_is_file(data_model(file_d)));
    }
    let bytes = match render_template(&template, &file_d) {
        Result::Err(e) => {
            proof {
                assert(false);
            }
            return Result::Err(Error::Template(e));
        },
        Result::Ok(b) => b,
    };
    match bytes_to_string(bytes) {
        Option::None => {
            proof {
                assert(false);
            }
            Result::Err(Error::Encoding)
        },
        Option::Some(s) => Result::Ok(s),
    }
}

/// Once the fold has failed at `upto`, it stays failed with the same error.
proof fn lemma_assemble_error_persists(table: Seq<char>, rows: Seq<RowV>, from: int, to: int)
    requires
        0 < from <= to <= rows.len(),
        spec_assemble_fields(table, rows, from) is Err,
    ensures
        spec_assemble_fields(table, rows, to) is Err,
        spec_assemble_fields(table, rows, to)->Err_0 == spec_assemble_fields(
            table,
            rows,
            from,
        )->Err_0,
    decreases to - from,
{
    if from < to {
        lemma_assemble_error_persists(table, rows, from + 1, to);
    }
}

} // verus!
