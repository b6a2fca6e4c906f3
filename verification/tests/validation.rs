use envschema::schema::Categories;
use envschema::schema::Category;
use envschema::schema::Variable;
use envschema::schema::Variables;
use envschema::validate::CheckError;
use envschema::value::MetaInformation;
use envschema::value::Type;
use envschema::value::Value;
use envschema::value::ValueEntry;

fn variable(name: &str, typ: Type) -> Variable {
    Variable {
        name: name.to_string(),
        description: "A variable under test.".to_string(),
        typ,
        values: None,
        default: None,
        meta: MetaInformation::InUse,
    }
}

fn entry(value: Value) -> ValueEntry {
    ValueEntry {
        value,
        description: "one allowed value".to_string(),
    }
}

fn check(v: Variable) -> Result<(), CheckError> {
    v.additional_self_check()
}

#[test]
fn name_with_space_fails_with_whitespace_message() {
    let v = variable("MY VAR", Type::String);
    let err = check(v).unwrap_err();
    assert_eq!(err.message(), "Name of 'MY VAR' contains whitespaces");
}

#[test]
fn name_with_lowercase_letter_fails_distinctly() {
    let v = variable("My_VAR", Type::String);
    let err = check(v).unwrap_err();
    assert_eq!(err.message(), "Name of 'My_VAR' contains lowercase letters");
}

#[test]
fn name_with_digit_fails_as_lowercase_case() {
    let v = variable("VAR2", Type::String);
    let err = check(v).unwrap_err();
    assert_eq!(err.message(), "Name of 'VAR2' contains lowercase letters");
}

#[test]
fn name_with_non_ascii_letter_fails_with_its_own_message() {
    let v = variable("VÄR", Type::String);
    let err = check(v).unwrap_err();
    assert_eq!(
        err.message(),
        "Name of 'VÄR' contains non ASCII-alphabetic letters"
    );
}

#[test]
fn whitespace_check_runs_before_character_classification() {
    let v = variable("my var", Type::String);
    let err = check(v).unwrap_err();
    assert_eq!(err.message(), "Name of 'my var' contains whitespaces");
}

#[test]
fn empty_name_fails() {
    let v = variable("", Type::String);
    let err = check(v).unwrap_err();
    assert_eq!(err.message(), "A variable has an empty name");
}

#[test]
fn empty_description_fails() {
    let mut v = variable("GOOD_NAME", Type::String);
    v.description = String::new();
    let err = check(v).unwrap_err();
    assert_eq!(err.message(), "Description of 'GOOD_NAME' is empty");
}

#[test]
fn valid_name_passes() {
    let v = variable("GOOD_NAME", Type::String);
    assert!(check(v).is_ok());
}

#[test]
fn non_zero_number_rejects_zero() {
    let mut v = variable("PORT", Type::NonZeroNumber);
    v.values = Some(vec![entry(Value::Number(0))]);
    let err = check(v).unwrap_err();
    assert_eq!(
        err.message(),
        "Value '0' in PORT.values[0].value was expected to be bigger than '0'"
    );
}

#[test]
fn non_zero_number_rejects_negative() {
    let mut v = variable("PORT", Type::NonZeroNumber);
    v.values = Some(vec![entry(Value::Number(-7))]);
    let err = check(v).unwrap_err();
    assert_eq!(
        err.message(),
        "Value '-7' in PORT.values[0].value was expected to be bigger than '0'"
    );
}

#[test]
fn non_zero_number_accepts_one() {
    let mut v = variable("PORT", Type::NonZeroNumber);
    v.values = Some(vec![entry(Value::Number(1))]);
    assert!(check(v).is_ok());
}

#[test]
fn non_zero_number_rejects_string_value() {
    let mut v = variable("PORT", Type::NonZeroNumber);
    v.values = Some(vec![entry(Value::String("one".to_string()))]);
    let err = check(v).unwrap_err();
    assert_eq!(
        err.message(),
        "Value 'one' in PORT.values[0].value was expected to be a number"
    );
}

#[test]
fn number_as_bool_accepts_zero_and_one() {
    let mut v = variable("FLAG", Type::NumberAsBool);
    v.values = Some(vec![entry(Value::Number(0)), entry(Value::Number(1))]);
    assert!(check(v).is_ok());
}

#[test]
fn number_as_bool_rejects_other_numbers() {
    let mut v = variable("FLAG", Type::NumberAsBool);
    v.values = Some(vec![entry(Value::Number(0)), entry(Value::Number(2))]);
    let err = check(v).unwrap_err();
    assert_eq!(
        err.message(),
        "Value '2' in FLAG.values[1].value was expected to be '0' or '1'"
    );
}

#[test]
fn non_empty_string_rejects_empty() {
    let mut v = variable("MODE", Type::NonEmptyString);
    v.values = Some(vec![entry(Value::String(String::new()))]);
    let err = check(v).unwrap_err();
    assert_eq!(
        err.message(),
        "Value '' in MODE.values[0].value was expected to be non-empty string"
    );
}

#[test]
fn non_empty_string_accepts_any_non_empty() {
    let mut v = variable("MODE", Type::NonEmptyString);
    v.values = Some(vec![entry(Value::String("fast".to_string()))]);
    assert!(check(v).is_ok());
}

#[test]
fn non_empty_list_rejects_empty() {
    let mut v = variable("PATHS", Type::NonEmptyList);
    v.values = Some(vec![entry(Value::List(vec![]))]);
    let err = check(v).unwrap_err();
    assert_eq!(
        err.message(),
        "Value '[]' in PATHS.values[0].value was expected to be a non-empty list"
    );
}

#[test]
fn non_empty_list_accepts_any_non_empty() {
    let mut v = variable("PATHS", Type::NonEmptyList);
    v.values = Some(vec![entry(Value::List(vec!["a".to_string()]))]);
    assert!(check(v).is_ok());
}

#[test]
fn string_type_rejects_number_value_naming_variable_and_index() {
    let mut v = variable("LEVEL", Type::String);
    v.values = Some(vec![
        entry(Value::String("low".to_string())),
        entry(Value::Number(5)),
    ]);
    let err = check(v).unwrap_err();
    assert_eq!(
        err.message(),
        "Value '5' in LEVEL.values[1].value was expected to be a string"
    );
}

#[test]
fn list_type_rejects_string_value() {
    let mut v = variable("PATHS", Type::List);
    v.values = Some(vec![entry(Value::String("alone".to_string()))]);
    let err = check(v).unwrap_err();
    assert_eq!(
        err.message(),
        "Value 'alone' in PATHS.values[0].value was expected to be a list"
    );
}

#[test]
fn duplicate_values_fail_even_with_different_descriptions() {
    let mut v = variable("LEVEL", Type::String);
    v.values = Some(vec![
        ValueEntry {
            value: Value::String("high".to_string()),
            description: "first reading".to_string(),
        },
        ValueEntry {
            value: Value::String("high".to_string()),
            description: "second reading".to_string(),
        },
    ]);
    let err = check(v).unwrap_err();
    assert_eq!(err.message(), "Values of 'LEVEL' are not unique");
}

#[test]
fn distinct_values_with_equal_descriptions_pass() {
    let mut v = variable("LEVEL", Type::String);
    v.values = Some(vec![
        entry(Value::String("high".to_string())),
        entry(Value::String("low".to_string())),
    ]);
    assert!(check(v).is_ok());
}

#[test]
fn duplicate_list_values_fail() {
    let mut v = variable("PATHS", Type::List);
    v.values = Some(vec![
        entry(Value::List(vec!["a".to_string(), "b".to_string()])),
        entry(Value::List(vec!["a".to_string(), "b".to_string()])),
    ]);
    let err = check(v).unwrap_err();
    assert_eq!(err.message(), "Values of 'PATHS' are not unique");
}

#[test]
fn default_outside_values_fails() {
    let mut v = variable("PORT", Type::NonZeroNumber);
    v.values = Some(vec![entry(Value::Number(1024))]);
    v.default = Some(Value::Number(2048));
    let err = check(v).unwrap_err();
    assert_eq!(
        err.message(),
        "Default value '2048' is not contained in PORT.values"
    );
}

#[test]
fn default_among_values_passes() {
    let mut v = variable("PORT", Type::NonZeroNumber);
    v.values = Some(vec![entry(Value::Number(1024)), entry(Value::Number(8080))]);
    v.default = Some(Value::Number(8080));
    assert!(check(v).is_ok());
}

#[test]
fn absent_default_passes_containment() {
    let mut v = variable("PORT", Type::NonZeroNumber);
    v.values = Some(vec![entry(Value::Number(1024))]);
    assert!(check(v).is_ok());
}

#[test]
fn default_without_values_passes_whatever_it_is() {
    let mut v = variable("PORT", Type::NonZeroNumber);
    v.default = Some(Value::Number(2048));
    assert!(check(v).is_ok());
}

// The declared rules never compare a default against the type tag when no
// allowed values are declared: a default of the wrong shape passes then.
#[test]
fn default_shape_is_not_checked_without_values() {
    let mut v = variable("PORT", Type::Number);
    v.default = Some(Value::String("not a number".to_string()));
    assert!(check(v).is_ok());
}

#[test]
fn shape_check_runs_before_uniqueness() {
    let mut v = variable("LEVEL", Type::String);
    v.values = Some(vec![
        entry(Value::Number(3)),
        entry(Value::Number(3)),
    ]);
    let err = check(v).unwrap_err();
    assert_eq!(
        err.message(),
        "Value '3' in LEVEL.values[0].value was expected to be a string"
    );
}

#[test]
fn first_failing_variable_wins_across_schema() {
    let good = variable("FIRST", Type::String);
    let bad_one = variable("second bad", Type::String);
    let bad_two = variable("", Type::String);
    let cats = Categories(vec![
        Category {
            category: "Alpha".to_string(),
            variables: Variables(vec![good, bad_one]),
        },
        Category {
            category: "Beta".to_string(),
            variables: Variables(vec![bad_two]),
        },
    ]);
    let err = cats.perform_self_check().unwrap_err();
    assert_eq!(err.message(), "Name of 'second bad' contains whitespaces");
}

#[test]
fn whole_schema_passes_when_every_variable_does() {
    let cats = Categories(vec![Category {
        category: "Alpha".to_string(),
        variables: Variables(vec![variable("ONE", Type::String), variable("TWO", Type::List)]),
    }]);
    assert!(cats.perform_self_check().is_ok());
}

#[test]
fn value_equality_is_structural() {
    assert!(Value::Number(3).equals(&Value::Number(3)));
    assert!(!Value::Number(3).equals(&Value::Number(4)));
    assert!(!Value::Number(3).equals(&Value::String("3".to_string())));
    assert!(Value::List(vec!["a".to_string()]).equals(&Value::List(vec!["a".to_string()])));
    assert!(!Value::List(vec!["a".to_string()]).equals(&Value::List(vec![])));
    assert!(!Value::String("a".to_string()).equals(&Value::List(vec!["a".to_string()])));
}
