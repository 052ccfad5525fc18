use cargo_workspace::failure::Failure;
use cargo_workspace::manifest::{load, member_names, member_values};

#[test]
fn load_gives_the_parsed_table() {
    let table = load("[workspace]\nmembers = [\"a\"]\n").unwrap();
    assert_eq!(table.len(), 1);
    assert!(table.get("workspace").unwrap().is_table());
    let expected: toml::Table = "[workspace]\nmembers = [\"a\"]\n".parse().unwrap();
    assert_eq!(table, expected);
}

#[test]
fn load_reports_invalid_toml_as_malformed() {
    let text = "members = [\"a\"";
    let (failure, complaint) = load(text).unwrap_err();
    assert_eq!(failure, Failure::Malformed);
    assert_eq!(complaint, text.parse::<toml::Table>().unwrap_err().to_string());
    assert!(!complaint.is_empty());
}

#[test]
fn member_values_finds_the_array() {
    let table = load("[workspace]\nmembers = [\"a\", 2, \"c\"]\n").unwrap();
    let values = member_values(&table).unwrap();
    assert_eq!(
        values,
        &vec![
            toml::Value::String("a".to_string()),
            toml::Value::Integer(2),
            toml::Value::String("c".to_string()),
        ]
    );
}

#[test]
fn member_values_names_the_step_that_failed() {
    let none = load("name = \"x\"\n").unwrap();
    assert_eq!(member_values(&none).unwrap_err(), Failure::NoWorkspace);
    let bare = load("[workspace]\n").unwrap();
    assert_eq!(member_values(&bare).unwrap_err(), Failure::NoMembers);
    let number = load("workspace = 1\n").unwrap();
    assert_eq!(member_values(&number).unwrap_err(), Failure::NoMembers);
    let text = load("[workspace]\nmembers = true\n").unwrap();
    assert_eq!(member_values(&text).unwrap_err(), Failure::MembersNotArray);
}

#[test]
fn member_values_looks_only_under_workspace() {
    let table = load("members = [\"top\"]\n[other]\nmembers = [\"x\"]\n").unwrap();
    assert_eq!(member_values(&table).unwrap_err(), Failure::NoWorkspace);
}

#[test]
fn member_names_reads_strings_and_marks_the_rest() {
    let values = vec![
        toml::Value::String("crates/foo".to_string()),
        toml::Value::Boolean(true),
        toml::Value::Array(vec![toml::Value::String("inner".to_string())]),
        toml::Value::String(String::new()),
        toml::Value::Table(toml::Table::new()),
    ];
    assert_eq!(
        member_names(&values),
        vec![Some("crates/foo".to_string()), None, None, Some(String::new()), None]
    );
}

#[test]
fn member_names_of_nothing_is_empty() {
    assert_eq!(member_names(&Vec::new()), Vec::<Option<String>>::new());
}

#[test]
fn the_manifest_file_is_cargo_toml() {
    assert_eq!(cargo_workspace::manifest::MANIFEST_FILE, "Cargo.toml");
}
