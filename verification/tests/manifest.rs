use clawbang::manifest::{
    manifest, merge, ManifestError, EDITION, FIXED_EDITION, FIXED_NAME, FIXED_VERSION, NAME,
    PACKAGE, VERSION,
};

fn table(entries: Vec<(&str, toml::Value)>) -> toml::Value {
    let mut map = toml::map::Map::new();
    for (key, value) in entries {
        map.insert(key.to_string(), value);
    }
    toml::Value::Table(map)
}

fn text(value: &str) -> toml::Value {
    toml::Value::String(value.to_string())
}

fn fixed_package() -> toml::Value {
    table(vec![
        ("name", text("bin")),
        ("version", text("0.0.1")),
        ("edition", text("2021")),
    ])
}

fn parsed(manifest_text: &str) -> toml::Value {
    toml::from_str::<toml::Value>(manifest_text).unwrap()
}

#[test]
fn fixed_fields_have_their_values() {
    assert_eq!(PACKAGE, "package");
    assert_eq!(NAME, "name");
    assert_eq!(VERSION, "version");
    assert_eq!(EDITION, "edition");
    assert_eq!(FIXED_NAME, "bin");
    assert_eq!(FIXED_VERSION, "0.0.1");
    assert_eq!(FIXED_EDITION, "2021");
}

#[test]
fn empty_configuration_gives_the_fixed_package() {
    assert_eq!(
        manifest(""),
        Ok("[package]\nedition = '2021'\nname = 'bin'\nversion = '0.0.1'\n".to_string())
    );
}

#[test]
fn manifest_is_not_the_configuration() {
    let config = "[package]\nedition = '2021'\nname = 'custom'\nversion = '0.0.1'\n";
    assert_ne!(manifest(config), Ok(config.to_string()));
    assert_eq!(manifest(config), manifest(""));
}

#[test]
fn package_name_in_the_configuration_is_overridden() {
    let text = manifest("[package]\nname = \"custom\"\n").unwrap();
    assert_eq!(parsed(&text), table(vec![("package", fixed_package())]));
    assert!(!text.contains("custom"));
}

#[test]
fn version_and_edition_in_the_configuration_are_overridden() {
    let text =
        manifest("[package]\nname = \"custom\"\nversion = \"9.9.9\"\nedition = \"2015\"\n")
            .unwrap();
    assert_eq!(
        text,
        "[package]\nedition = '2021'\nname = 'bin'\nversion = '0.0.1'\n"
    );
}

#[test]
fn fixed_field_of_another_kind_is_overridden() {
    let text = manifest("[package]\nname = 7\nversion = [1, 2]\n[package.edition]\nx = 1\n")
        .unwrap();
    assert_eq!(parsed(&text), table(vec![("package", fixed_package())]));
}

#[test]
fn other_entries_are_kept() {
    let text = manifest(
        "[package]\nname = \"custom\"\nauthors = [\"me\"]\n\n[dependencies]\nrand = \"0.8\"\n",
    )
    .unwrap();
    assert_eq!(
        text,
        "[dependencies]\nrand = '0.8'\n\n[package]\nauthors = ['me']\nedition = '2021'\nname = 'bin'\nversion = '0.0.1'\n"
    );
    let package = table(vec![
        ("authors", toml::Value::Array(vec![text_value("me")])),
        ("name", text_value("bin")),
        ("version", text_value("0.0.1")),
        ("edition", text_value("2021")),
    ]);
    let dependencies = table(vec![("rand", text_value("0.8"))]);
    assert_eq!(
        parsed(&text),
        table(vec![("package", package), ("dependencies", dependencies)])
    );
}

fn text_value(value: &str) -> toml::Value {
    text(value)
}

#[test]
fn top_level_values_are_kept() {
    let text = manifest("answer = 42\nflag = true\n").unwrap();
    assert_eq!(
        parsed(&text),
        table(vec![
            ("answer", toml::Value::Integer(42)),
            ("flag", toml::Value::Boolean(true)),
            ("package", fixed_package()),
        ])
    );
}

#[test]
fn broken_syntax_is_rejected() {
    assert_eq!(manifest("= broken"), Err(ManifestError::Syntax));
    assert_eq!(manifest("[package"), Err(ManifestError::Syntax));
    assert_eq!(manifest("a = 1\na = 2\n"), Err(ManifestError::Syntax));
}

#[test]
fn package_that_is_no_table_is_rejected() {
    assert_eq!(manifest("package = 1"), Err(ManifestError::PackageNotTable));
    assert_eq!(
        manifest("package = \"bin\""),
        Err(ManifestError::PackageNotTable)
    );
    assert_eq!(
        manifest("package = [1, 2]"),
        Err(ManifestError::PackageNotTable)
    );
}

#[test]
fn manifest_that_cannot_be_written_is_rejected() {
    assert_eq!(
        manifest("a = [{x = 1}]\nb = [1, {y = 2}]"),
        Err(ManifestError::Unrenderable)
    );
}

#[test]
fn merge_adds_the_package_table() {
    assert_eq!(
        merge(table(vec![])),
        Ok(table(vec![("package", fixed_package())]))
    );
}

#[test]
fn merge_overrides_and_keeps() {
    let package = table(vec![
        ("name", text("custom")),
        ("license", text("MIT")),
        ("edition", toml::Value::Integer(2018)),
    ]);
    let config = table(vec![
        ("package", package),
        ("answer", toml::Value::Integer(42)),
    ]);
    let merged_package = table(vec![
        ("name", text("bin")),
        ("license", text("MIT")),
        ("version", text("0.0.1")),
        ("edition", text("2021")),
    ]);
    assert_eq!(
        merge(config),
        Ok(table(vec![
            ("package", merged_package),
            ("answer", toml::Value::Integer(42)),
        ]))
    );
}

#[test]
fn merge_is_idempotent() {
    let once = merge(table(vec![("answer", toml::Value::Integer(42))])).unwrap();
    assert_eq!(merge(once.clone()), Ok(once));
}

#[test]
fn merge_rejects_what_is_no_table() {
    assert_eq!(merge(toml::Value::Integer(1)), Err(ManifestError::NotTable));
    assert_eq!(merge(text("package")), Err(ManifestError::NotTable));
    assert_eq!(
        merge(toml::Value::Array(vec![])),
        Err(ManifestError::NotTable)
    );
}

#[test]
fn merge_rejects_a_package_that_is_no_table() {
    assert_eq!(
        merge(table(vec![("package", text("bin"))])),
        Err(ManifestError::PackageNotTable)
    );
}
