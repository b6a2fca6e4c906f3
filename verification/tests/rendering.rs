use envschema::schema::Categories;
use envschema::schema::Category;
use envschema::schema::Variable;
use envschema::schema::Variables;
use envschema::value::MetaInformation;
use envschema::value::Type;
use envschema::value::Value;
use envschema::value::ValueEntry;

fn db_port_schema() -> Categories {
    Categories(vec![Category {
        category: "Database".to_string(),
        variables: Variables(vec![Variable {
            name: "DB_PORT".to_string(),
            description: "The port.".to_string(),
            typ: Type::NonZeroNumber,
            values: Some(vec![ValueEntry {
                value: Value::Number(1024),
                description: "low".to_string(),
            }]),
            default: Some(Value::Number(1024)),
            meta: MetaInformation::InUse,
        }]),
    }])
}

#[test]
fn round_trip_database_schema() {
    let cats = db_port_schema();
    assert!(cats.perform_self_check().is_ok());

    let markdown = cats.write_as_markdown();
    assert!(markdown.contains("### DB_PORT"));
    assert!(markdown.contains("|Default|1024|"));
    let expected_markdown = "# Environment Variables\n\
        ##  Database\n\
        ### DB_PORT\n\n\
        The port.\n\n\
        |Property|Value|\n\
        |:-- |:-- |\n\
        |Type|Non-Zero Number|\n\
        |Default|1024|\n\
        |Values|<ul><li>`1024` \u{21d2} low</li></ul>|\n";
    assert_eq!(markdown, expected_markdown);

    let shell = cats.write_as_shell();
    assert!(shell.contains("VARS[DB_PORT]=\"${DB_PORT:=1024}\""));
    let expected_shell = "#!/bin/bash\n\n\
        function __environment_variables__automated__database() {\n\
        \x20 # The port.\n\
        \x20 VARS[DB_PORT]=\"${DB_PORT:=1024}\"\n\
        }\n";
    assert_eq!(shell, expected_shell);
    let function_start = shell
        .find("function __environment_variables__automated__database() {")
        .unwrap();
    let assignment = shell.find("VARS[DB_PORT]").unwrap();
    assert!(function_start < assignment);
}

#[test]
fn rendering_twice_is_byte_identical() {
    let cats = db_port_schema();
    assert!(cats.perform_self_check().is_ok());
    assert_eq!(cats.write_as_markdown(), cats.write_as_markdown());
    assert_eq!(cats.write_as_shell(), cats.write_as_shell());
}

#[test]
fn category_order_is_kept_in_both_outputs() {
    let cats = Categories(vec![
        Category {
            category: "Alpha".to_string(),
            variables: Variables(vec![]),
        },
        Category {
            category: "Beta".to_string(),
            variables: Variables(vec![]),
        },
    ]);
    let markdown = cats.write_as_markdown();
    let alpha = markdown.find("##  Alpha").unwrap();
    let beta = markdown.find("##  Beta").unwrap();
    assert!(alpha < beta);

    let shell = cats.write_as_shell();
    let alpha_fn = shell
        .find("function __environment_variables__automated__alpha() {")
        .unwrap();
    let beta_fn = shell
        .find("function __environment_variables__automated__beta() {")
        .unwrap();
    assert!(alpha_fn < beta_fn);
}

#[test]
fn empty_schema_renders_only_the_frames() {
    let cats = Categories(vec![]);
    assert_eq!(cats.write_as_markdown(), "# Environment Variables\n");
    assert_eq!(cats.write_as_shell(), "#!/bin/bash\n");
}

#[test]
fn missing_default_renders_fixed_sentences() {
    let cats = Categories(vec![Category {
        category: "General".to_string(),
        variables: Variables(vec![Variable {
            name: "ANYTHING".to_string(),
            description: "Free text.".to_string(),
            typ: Type::String,
            values: None,
            default: None,
            meta: MetaInformation::InUse,
        }]),
    }]);
    let markdown = cats.write_as_markdown();
    assert!(markdown.contains("|Default|This variable does not have a default value|"));
    assert!(markdown.contains(
        "|Values|Arbitrary values within the restriction of the type are allowed|"
    ));
    let shell = cats.write_as_shell();
    assert!(shell.contains("VARS[ANYTHING]=\"${ANYTHING:=}\""));
}

#[test]
fn list_default_renders_bracketed_and_quoted() {
    let v = Variable {
        name: "PATHS".to_string(),
        description: "Search paths.".to_string(),
        typ: Type::List,
        values: None,
        default: Some(Value::List(vec!["a".to_string(), "b".to_string()])),
        meta: MetaInformation::InUse,
    };
    let markdown = v.to_markdown();
    assert!(markdown.contains("|Default|[\"a\", \"b\"]|"));
    let empty = Value::List(vec![]).to_text();
    assert_eq!(empty, "[]");
    let single = Value::List(vec!["x".to_string()]).to_text();
    assert_eq!(single, "[\"x\"]");
}

#[test]
fn number_rendering_covers_signs_and_extremes() {
    assert_eq!(Value::Number(0).to_text(), "0");
    assert_eq!(Value::Number(-42).to_text(), "-42");
    assert_eq!(Value::Number(1024).to_text(), "1024");
    assert_eq!(Value::Number(isize::MAX).to_text(), isize::MAX.to_string());
    assert_eq!(Value::Number(isize::MIN).to_text(), isize::MIN.to_string());
}

#[test]
fn meta_row_appears_only_when_not_in_use() {
    let mut v = Variable {
        name: "OLD_FLAG".to_string(),
        description: "An old switch.".to_string(),
        typ: Type::NumberAsBool,
        values: None,
        default: None,
        meta: MetaInformation::InUse,
    };
    assert!(!v.to_markdown().contains("|Meta|"));

    v.meta = MetaInformation::UsageDiscouraged;
    assert!(v.to_markdown().contains("\n|Meta|**Usage is discouraged**"));

    v.meta = MetaInformation::Deprecated("1.2".to_string());
    assert!(v
        .to_markdown()
        .contains("\n|Meta|**Deprecated** since version 1.2"));

    v.meta = MetaInformation::Removed("2.0".to_string());
    assert!(v.to_markdown().contains("\n|Meta|**Removed** in version 2.0"));
}

#[test]
fn multi_line_description_continues_shell_comment() {
    let v = Variable {
        name: "WIDE".to_string(),
        description: "first line\nsecond line".to_string(),
        typ: Type::String,
        values: None,
        default: None,
        meta: MetaInformation::InUse,
    };
    let shell = v.to_shell();
    assert_eq!(
        shell,
        "  # first line\n  # second line\n  VARS[WIDE]=\"${WIDE:=}\""
    );
}

#[test]
fn category_name_is_lowercased_in_function_name_only() {
    let cats = Categories(vec![Category {
        category: "DataBase".to_string(),
        variables: Variables(vec![]),
    }]);
    let shell = cats.write_as_shell();
    assert!(shell.contains("function __environment_variables__automated__database() {"));
    let markdown = cats.write_as_markdown();
    assert!(markdown.contains("##  DataBase"));
}

#[test]
fn value_entry_lists_value_before_description() {
    let entry = ValueEntry {
        value: Value::String("fast".to_string()),
        description: "no checks".to_string(),
    };
    assert_eq!(entry.to_text(), "`fast` \u{21d2} no checks");
}

#[test]
fn type_labels_differ_from_tag_names_where_documented() {
    assert_eq!(Type::Number.label(), "Number");
    assert_eq!(Type::NonZeroNumber.label(), "Non-Zero Number");
    assert_eq!(Type::NumberAsBool.label(), "Number as Boolean");
    assert_eq!(Type::String.label(), "String");
    assert_eq!(Type::NonEmptyString.label(), "Non-Empty String");
    assert_eq!(Type::List.label(), "List");
    assert_eq!(Type::NonEmptyList.label(), "Non-Empty List");
}

#[test]
fn meta_prose_forms() {
    assert_eq!(MetaInformation::InUse.to_text(), "in use");
    assert_eq!(
        MetaInformation::UsageDiscouraged.to_text(),
        "**Usage is discouraged**"
    );
    assert_eq!(
        MetaInformation::Deprecated("3.1".to_string()).to_text(),
        "**Deprecated** since version 3.1"
    );
    assert_eq!(
        MetaInformation::Removed("4.0".to_string()).to_text(),
        "**Removed** in version 4.0"
    );
}
