use tyr::cli::debug;
use tyr::cli::info;
use tyr::cli::license_flags;
use tyr::cli::log_message;
use tyr::cli::setup_cargo_new_args;
use tyr::cli::Level;
use tyr::cli::NewArgs;
use std::collections::HashMap;
use tyr::context::Context;
use tyr::env::Common;
use tyr::env::Kind;
use tyr::env::Specific;
use tyr::error::Error;
use tyr::mapper::apply_nullable;
use tyr::mapper::map_type;
use tyr::store::QueryDataByCol;
use tyr::store::TableMap;
use tyr::util::center_pad;
use tyr::util::pad_left;
use tyr::util::pretty_print_tables;
use tyr::util::u32_to_dec;

#[test]
fn map_type_table() {
    assert_eq!(map_type("NUMBER"), "f64");
    assert_eq!(map_type("VARCHAR2"), "String");
    assert_eq!(map_type("CLOB"), "");
    assert_eq!(map_type("number"), "");
}

#[test]
fn apply_nullable_wraps_on_explicit_yes() {
    let (ty, nullable) = apply_nullable("f64".to_string(), None, "Y");
    assert_eq!(ty, "Option<f64>");
    assert_eq!(nullable, Some(true));
}

#[test]
fn apply_nullable_marks_on_explicit_no() {
    let (ty, nullable) = apply_nullable("String".to_string(), None, "N");
    assert_eq!(ty, "String");
    assert_eq!(nullable, Some(false));
}

#[test]
fn apply_nullable_ignores_other_markers() {
    let (ty, nullable) = apply_nullable("f64".to_string(), None, "");
    assert_eq!(ty, "f64");
    assert_eq!(nullable, None);
    let (ty2, nullable2) = apply_nullable("f64".to_string(), Some(true), "y");
    assert_eq!(ty2, "f64");
    assert_eq!(nullable2, Some(true));
}

#[test]
fn pad_left_pads_short_strings() {
    assert_eq!(pad_left(5, "ab"), "   ab");
    assert_eq!(pad_left(2, "abcd"), "abcd");
    assert_eq!(pad_left(0, ""), "");
}

#[test]
fn center_pad_matches_the_formatter() {
    assert_eq!(center_pad(80, "#", " Table 'EMP' "), format!("{:#^80}", " Table 'EMP' "));
    assert_eq!(center_pad(10, "-", " Row 1 "), format!("{:-^10}", " Row 1 "));
    assert_eq!(center_pad(3, "-", "abcdef"), "abcdef");
}

#[test]
fn decimal_rendering() {
    assert_eq!(u32_to_dec(0), "0");
    assert_eq!(u32_to_dec(7), "7");
    assert_eq!(u32_to_dec(10), "10");
    assert_eq!(u32_to_dec(305), "305");
    assert_eq!(u32_to_dec(u32::MAX), "4294967295");
}

#[test]
fn log_message_right_aligns_the_verb() {
    assert_eq!(log_message("Created", "a thing"), format!("{:>12} {}", "Created", "a thing"));
    assert_eq!(
        log_message("a verb beyond twelve", "m"),
        format!("{:>12} {}", "a verb beyond twelve", "m")
    );
}

#[test]
fn debug_and_info_respect_the_level() {
    assert!(debug("v", "m", &Level::Trace).is_some());
    assert!(debug("v", "m", &Level::Debug).is_some());
    assert!(debug("v", "m", &Level::Info).is_none());
    assert!(info("v", "m", &Level::Info).is_some());
    assert!(info("v", "m", &Level::Warn).is_none());
    assert_eq!(info("Created", "msg", &Level::Info).unwrap(), format!("{:>12} {}", "Created", "msg"));
}

#[test]
fn level_labels() {
    assert_eq!(Level::Trace.label(), "Trace");
    assert_eq!(Level::Debug.label(), "Debug");
    assert_eq!(Level::Info.label(), "Info");
    assert_eq!(Level::Warn.label(), "Warn");
}

#[test]
fn license_selection() {
    assert_eq!(license_flags("both").unwrap(), (true, true));
    assert_eq!(license_flags("mit").unwrap(), (true, false));
    assert_eq!(license_flags("apache").unwrap(), (false, true));
    assert_eq!(license_flags("none").unwrap(), (false, false));
    assert!(matches!(license_flags("gpl"), Err(Error::License)));
}

#[test]
fn cargo_new_args_default_shape() {
    let args = NewArgs {
        frozen: false,
        locked: false,
        quiet: false,
        verbose: 0,
        color: Some("auto".to_string()),
        vcs: Some("git".to_string()),
        name: None,
        path: Some("my_orm".to_string()),
    };
    let (path, name, level, argv) = setup_cargo_new_args(args).unwrap();
    assert_eq!(path, "my_orm");
    assert_eq!(name, "my_orm");
    assert_eq!(level, Level::Info);
    assert_eq!(argv, vec!["new", "--color", "auto", "--vcs", "git", "my_orm"]);
}

#[test]
fn cargo_new_args_full_shape() {
    let args = NewArgs {
        frozen: true,
        locked: true,
        quiet: false,
        verbose: 2,
        color: Some("never".to_string()),
        vcs: Some("none".to_string()),
        name: Some("orm_lib".to_string()),
        path: Some("out/dir".to_string()),
    };
    let (path, name, level, argv) = setup_cargo_new_args(args).unwrap();
    assert_eq!(path, "out/dir");
    assert_eq!(name, "orm_lib");
    assert_eq!(level, Level::Trace);
    assert_eq!(
        argv,
        vec![
            "new", "--frozen", "--locked", "-vv", "--color", "never", "--vcs", "none", "--name",
            "orm_lib", "out/dir"
        ]
    );
}

#[test]
fn cargo_new_args_quiet_warns_only() {
    let args = NewArgs {
        frozen: false,
        locked: false,
        quiet: true,
        verbose: 0,
        color: None,
        vcs: None,
        name: None,
        path: Some("p".to_string()),
    };
    let (_, _, level, argv) = setup_cargo_new_args(args).unwrap();
    assert_eq!(level, Level::Warn);
    assert_eq!(argv, vec!["new", "--quiet", "p"]);
}

#[test]
fn cargo_new_args_require_a_path() {
    let args = NewArgs {
        frozen: false,
        locked: false,
        quiet: false,
        verbose: 1,
        color: None,
        vcs: None,
        name: None,
        path: None,
    };
    assert!(matches!(setup_cargo_new_args(args), Err(Error::Path)));
}

#[test]
fn context_requires_every_argument() {
    let ok = Context::from_args(
        Some("//localhost/orcl".to_string()),
        Some("scott".to_string()),
        Some("SECRET-REDACTED".to_string()),
    )
    .unwrap();
    assert_eq!(ok.conn_string().as_str(), "//localhost/orcl");
    assert_eq!(ok.username().as_str(), "scott");
    let missing = Context::from_args(Some("//localhost/orcl".to_string()), None, None);
    match missing {
        Err(err) => assert_eq!(
            err.message(),
            "The connection string is a required command line argument!"
        ),
        Ok(_) => panic!("expected the configuration error"),
    }
}

#[test]
fn environment_settings_carry_their_kind() {
    let mut kvs = HashMap::new();
    kvs.insert("url".to_string(), "localhost".to_string());
    let common = Common::new(kvs.clone());
    assert_eq!(common.kvs.get("url").map(|s| s.as_str()), Some("localhost"));
    let specific = Specific::new(Kind::Dev, kvs);
    assert_eq!(specific.kind(), Kind::Dev);
    assert_ne!(Kind::Dev, Kind::Prod);
}

#[test]
fn pretty_print_lines() {
    let mut tables = TableMap::new();
    tables.add_table("EMP".to_string());
    tables.insert_row(
        0,
        0,
        vec![
            QueryDataByCol::new("TABLE_NAME".to_string(), "VARCHAR2".to_string(), Some("EMP".to_string())),
            QueryDataByCol::new("COLUMN_NAME".to_string(), "VARCHAR2".to_string(), Some("NAME".to_string())),
            QueryDataByCol::new("LOW_VALUE".to_string(), "RAW".to_string(), None),
        ],
    );
    tables.insert_row(
        0,
        1,
        vec![QueryDataByCol::new("TABLE_NAME".to_string(), "VARCHAR2".to_string(), Some("EMP".to_string()))],
    );
    let lines = pretty_print_tables(&tables).unwrap();
    let expected = vec![
        format!("{:#^80}", " Table 'EMP' "),
        format!("{:-^80}", " Row 1 "),
        " TABLE_NAME: EMP".to_string(),
        "COLUMN_NAME: NAME".to_string(),
        "  LOW_VALUE: (null)".to_string(),
        "".to_string(),
        format!("{:-^80}", " Row 2 "),
        "TABLE_NAME: EMP".to_string(),
    ];
    assert_eq!(lines, expected);
}

#[test]
fn pretty_print_refuses_an_empty_row() {
    let mut tables = TableMap::new();
    tables.add_table("EMP".to_string());
    tables.insert_row(0, 0, vec![]);
    assert!(matches!(pretty_print_tables(&tables), Err(Error::Max)));
}
