use tyr::error::Error;
use tyr::run::Action;
use tyr::run::Event;
use tyr::run::Session;
use tyr::store::QueryDataByCol;
use tyr::store::TableMap;
use tyr::tmpl::assemble;
use tyr::tmpl::render;

fn cell(column_name: &str, data: Option<&str>) -> QueryDataByCol {
    QueryDataByCol::new(
        column_name.to_string(),
        "VARCHAR2".to_string(),
        data.map(|d| d.to_string()),
    )
}

fn describe_row(column: &str, data_type: &str, nullable: &str) -> Vec<QueryDataByCol> {
    vec![
        cell("COLUMN_NAME", Some(column)),
        cell("DATA_TYPE", Some(data_type)),
        cell("NULLABLE", Some(nullable)),
    ]
}

fn emp_tables() -> TableMap {
    let mut tables = TableMap::new();
    tables.add_table("EMP".to_string());
    tables.insert_row(0, 0, describe_row("NAME", "VARCHAR2", "Y"));
    tables.insert_row(0, 1, describe_row("SALARY", "NUMBER", "N"));
    tables
}

const PREFIX: &str = "//! ORM generated by tyr\nuse error::Result;\nuse mimir::Connection;\n\n";

#[test]
fn emp_scenario_descriptor() {
    let tables = emp_tables();
    let table = assemble("EMP", tables.rows_at(0)).unwrap();
    assert_eq!(table.struct_name, "Emp");
    assert_eq!(table.field.len(), 2);
    assert_eq!(table.field[0].field_name, "emp_name");
    assert_eq!(table.field[0].field_type, "Option<String>");
    assert_eq!(table.field[0].nullable, Some(true));
    assert_eq!(table.field[1].field_name, "emp_salary");
    assert_eq!(table.field[1].field_type, "f64");
    assert_eq!(table.field[1].nullable, Some(false));
}

#[test]
fn descriptor_count_matches_columns() {
    let mut tables = TableMap::new();
    tables.add_table("T".to_string());
    for i in 0..5u32 {
        tables.insert_row(0, i, describe_row("C", "VARCHAR2", "N"));
    }
    let table = assemble("T", tables.rows_at(0)).unwrap();
    assert_eq!(table.field.len(), 5);
}

#[test]
fn fixed_derive_tags() {
    let tables = emp_tables();
    let table = assemble("EMP", tables.rows_at(0)).unwrap();
    let names: Vec<&str> = table.derives.iter().map(|d| d.name.as_str()).collect();
    assert_eq!(names, vec!["Clone", "Default", "Debug", "Eq", "Hash", "PartialEq"]);
    let commas: Vec<bool> = table.derives.iter().map(|d| d.comma).collect();
    assert_eq!(commas, vec![true, true, true, true, true, false]);
}

#[test]
fn round_trip_number_nullable() {
    let mut tables = TableMap::new();
    tables.add_table("T".to_string());
    tables.insert_row(0, 0, describe_row("A", "NUMBER", "Y"));
    let table = assemble("T", tables.rows_at(0)).unwrap();
    assert_eq!(table.field[0].field_type, "Option<f64>");
    assert_eq!(table.field[0].nullable, Some(true));
}

#[test]
fn round_trip_varchar_not_nullable() {
    let mut tables = TableMap::new();
    tables.add_table("T".to_string());
    tables.insert_row(0, 0, describe_row("A", "VARCHAR2", "N"));
    let table = assemble("T", tables.rows_at(0)).unwrap();
    assert_eq!(table.field[0].field_type, "String");
    assert_eq!(table.field[0].nullable, Some(false));
}

#[test]
fn round_trip_unknown_type_sentinel() {
    let mut tables = TableMap::new();
    tables.add_table("T".to_string());
    tables.insert_row(0, 0, describe_row("A", "BLOB", "N"));
    let table = assemble("T", tables.rows_at(0)).unwrap();
    assert_eq!(table.field[0].field_type, "");
}

#[test]
fn unknown_nullable_marker_is_a_no_op() {
    let mut tables = TableMap::new();
    tables.add_table("T".to_string());
    tables.insert_row(0, 0, describe_row("A", "NUMBER", "?"));
    let table = assemble("T", tables.rows_at(0)).unwrap();
    assert_eq!(table.field[0].field_type, "f64");
    assert_eq!(table.field[0].nullable, None);
}

#[test]
fn missing_data_type_is_a_build_error() {
    let mut tables = TableMap::new();
    tables.add_table("T".to_string());
    tables.insert_row(
        0,
        0,
        vec![cell("COLUMN_NAME", Some("A")), cell("NULLABLE", Some("N"))],
    );
    let err = assemble("T", tables.rows_at(0)).unwrap_err();
    match err {
        Error::Build(field) => assert_eq!(field, "field_type"),
        other => panic!("expected a build error, got {:?}", other),
    }
    let render_err = render(&tables).unwrap_err();
    assert!(matches!(render_err, Error::Build(_)));
}

#[test]
fn missing_column_name_is_a_build_error() {
    let mut tables = TableMap::new();
    tables.add_table("T".to_string());
    tables.insert_row(0, 0, vec![cell("DATA_TYPE", Some("NUMBER"))]);
    let err = assemble("T", tables.rows_at(0)).unwrap_err();
    match err {
        Error::Build(field) => assert_eq!(field, "field_name"),
        other => panic!("expected a build error, got {:?}", other),
    }
}

#[test]
fn build_error_message_names_the_field() {
    let err = Error::Build("field_type".to_string());
    assert_eq!(err.message(), "uninitialized field: field_type");
}

#[test]
fn render_zero_tables_emits_no_table_blocks() {
    let tables = TableMap::new();
    let out = render(&tables).unwrap();
    assert_eq!(out, PREFIX);
}

#[test]
fn render_emp_table() {
    let tables = emp_tables();
    let out = render(&tables).unwrap();
    let expected = format!(
        "{}{}{}{}{}{}{}",
        PREFIX,
        "/// `Emp` ORM\n\
         #[derive(Getters, MutGetters, Setters, Clone, Default, Debug, Eq, Hash, PartialEq)]\n\
         pub struct Emp {\n",
        "    /// `emp_name` column\n    #[get = \"pub\"]\n    #[set = \"pub\"]\n    #[get_mut = \"pub\"]\n    emp_name: Option<String>,\n",
        "    /// `emp_salary` column\n    #[get = \"pub\"]\n    #[set = \"pub\"]\n    #[get_mut = \"pub\"]\n    emp_salary: f64,\n",
        "}\n\nimpl Emp {\n",
        "    /// Fetch a vector of `Emp` from the given connection.  By default, all rows will be\n    /// fetched.\n",
        "    pub fn fetch(conn: &Connection) -> Result<Vec<Emp>> {\n        Ok(Vec::new())\n    }\n}\n"
    );
    assert_eq!(out, expected);
}

#[test]
fn null_cells_use_the_null_marker() {
    let mut tables = TableMap::new();
    tables.add_table("T".to_string());
    tables.insert_row(
        0,
        0,
        vec![
            cell("COLUMN_NAME", None),
            cell("DATA_TYPE", Some("VARCHAR2")),
        ],
    );
    let table = assemble("T", tables.rows_at(0)).unwrap();
    assert_eq!(table.field[0].field_name, "t_null");
}

#[test]
fn first_query_failure_aborts_before_any_table() {
    let mut session = Session::new();
    let action = session.step(Event::Failure("ORA-12541: no listener".to_string()));
    match action {
        Action::Abort(Error::Driver(diag)) => {
            assert_eq!(diag, "ORA-12541: no listener");
        }
        _ => panic!("expected an abort"),
    }
    assert_eq!(session.tables.len(), 0);
}

#[test]
fn session_walks_the_catalog_in_list_order() {
    let mut session = Session::new();
    assert!(matches!(
        session.step(Event::TableName("EMP".to_string())),
        Action::FetchTable
    ));
    assert!(matches!(
        session.step(Event::TableName("DEPT".to_string())),
        Action::FetchTable
    ));
    match session.step(Event::TablesDone) {
        Action::Describe(name) => assert_eq!(name, "EMP"),
        _ => panic!("expected a describe"),
    }
    assert!(matches!(
        session.step(Event::Row(0, describe_row("NAME", "VARCHAR2", "Y"))),
        Action::FetchRow
    ));
    match session.step(Event::RowsDone) {
        Action::Describe(name) => assert_eq!(name, "DEPT"),
        _ => panic!("expected the next describe"),
    }
    assert!(matches!(session.step(Event::RowsDone), Action::Render));
    assert_eq!(session.tables.len(), 2);
    assert_eq!(session.tables.name_at(0).as_str(), "EMP");
    assert_eq!(session.tables.name_at(1).as_str(), "DEPT");
    assert_eq!(session.tables.rows_at(0).len(), 1);
    assert_eq!(session.tables.rows_at(1).len(), 0);
}

#[test]
fn session_with_empty_catalog_renders_at_once() {
    let mut session = Session::new();
    assert!(matches!(session.step(Event::TablesDone), Action::Render));
    let out = render(&session.tables).unwrap();
    assert_eq!(out, PREFIX);
}

#[test]
fn failure_mid_describe_keeps_buffered_tables() {
    let mut session = Session::new();
    session.step(Event::TableName("EMP".to_string()));
    session.step(Event::TablesDone);
    session.step(Event::Row(0, describe_row("NAME", "VARCHAR2", "Y")));
    let action = session.step(Event::Failure("ORA-01013: cancelled".to_string()));
    assert!(matches!(action, Action::Abort(Error::Driver(_))));
    assert_eq!(session.tables.len(), 1);
    assert_eq!(session.tables.rows_at(0).len(), 1);
}
