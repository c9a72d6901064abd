//! The build manifest: a script's configuration with the package's name,
//! version and edition fixed.
//!
//! Configuration is TOML. It is parsed, changed and written out again by the
//! `toml` crate; this module decides what is changed. Contracts speak of a
//! TOML value through its model, [`Toml`].

use vstd::prelude::*;

verus! {

/// `toml::Value`: a TOML value of any kind. The verifier does not look
/// inside it.
#[verifier::external_type_specification]
#[verifier::external_body]
pub struct ExTomlValue(toml::Value);

/// `toml::de::Error`: why a text was not accepted as TOML.
#[verifier::external_type_specification]
#[verifier::external_body]
pub struct ExTomlParseError(toml::de::Error);

/// `toml::ser::Error`: why a value could not be written as TOML.
#[verifier::external_type_specification]
#[verifier::external_body]
pub struct ExTomlRenderError(toml::ser::Error);

/// What this library reads of a TOML value.
pub enum Toml {
    /// A table, by its entries.
    Table(Map<Seq<char>, Toml>),
    /// A string, by its characters.
    String(Seq<char>),
    /// A value of any other kind, which the library only carries along.
    Other(toml::Value),
}

/// The model of a TOML value.
pub uninterp spec fn model_of(value: toml::Value) -> Toml;

/// What `toml::from_str` makes of a document: the model of the value it
/// returns, or nothing where it rejects the text.
pub uninterp spec fn parse_toml(text: Seq<char>) -> Option<Toml>;

/// What `toml::to_string_pretty` makes of a value: the text it returns, or
/// nothing where it fails.
pub uninterp spec fn render_toml(doc: Toml) -> Option<Seq<char>>;

/// Key of the table that describes the package.
pub const PACKAGE: &'static str = "package";

/// Key of the package's name.
pub const NAME: &'static str = "name";

/// Key of the package's version.
pub const VERSION: &'static str = "version";

/// Key of the package's edition.
pub const EDITION: &'static str = "edition";

/// The name under which every script is built.
pub const FIXED_NAME: &'static str = "bin";

/// The version under which every script is built.
pub const FIXED_VERSION: &'static str = "0.0.1";

/// The edition under which every script is built.
pub const FIXED_EDITION: &'static str = "2021";

/// Why no manifest could be derived from a configuration.
#[derive(Clone, Copy, Debug, PartialEq, Eq, Structural)]
pub enum ManifestError {
    /// The configuration is not valid TOML.
    Syntax,
    /// The configuration is not a table at its top level.
    NotTable,
    /// The configuration has an entry `package` that is not a table.
    PackageNotTable,
    /// The manifest could not be written out as TOML.
    Unrenderable,
}

/// The entries of a package table with name, version and edition fixed.
pub open spec fn fixed_package(package: Map<Seq<char>, Toml>) -> Map<Seq<char>, Toml> {
    package.insert(NAME@, Toml::String(FIXED_NAME@)).insert(
        VERSION@,
        Toml::String(FIXED_VERSION@),
    ).insert(EDITION@, Toml::String(FIXED_EDITION@))
}

/// The package table of a configuration: the one it has, or an empty one.
pub open spec fn package_of(config: Map<Seq<char>, Toml>) -> Map<Seq<char>, Toml> {
    if config.contains_key(PACKAGE@) {
        config[PACKAGE@]->Table_0
    } else {
        Map::empty()
    }
}

/// The manifest for a configuration with these entries: the same entries,
/// but for `package`, whose name, version and edition are fixed.
pub open spec fn merged(config: Map<Seq<char>, Toml>) -> Toml {
    Toml::Table(config.insert(PACKAGE@, Toml::Table(fixed_package(package_of(config)))))
}

/// The manifest for a parsed configuration, or why there is none.
pub open spec fn merge_of(doc: Toml) -> Result<Toml, ManifestError> {
    match doc {
        Toml::Table(config) => {
            if config.contains_key(PACKAGE@) && !(config[PACKAGE@] is Table) {
                Err(ManifestError::PackageNotTable)
            } else {
                Ok(merged(config))
            }
        },
        _ => Err(ManifestError::NotTable),
    }
}

/// The manifest text for a configuration text, or why there is none.
pub open spec fn manifest_of(config: Seq<char>) -> Result<Seq<char>, ManifestError> {
    match parse_toml(config) {
        None => Err(ManifestError::Syntax),
        Some(doc) => match merge_of(doc) {
            Err(e) => Err(e),
            Ok(manifest) => match render_toml(manifest) {
                None => Err(ManifestError::Unrenderable),
                Some(text) => Ok(text),
            },
        },
    }
}

/// Calls `toml::from_str` for a `toml::Value`.
///
/// Trusted: whether the text is accepted, and the value that comes back,
/// depend on the text alone. The parser descends once for each level of
/// nesting in the text; the contract speaks of a call that returns.
#[verifier::external_body]
fn parse_document(text: &str) -> (r: Result<toml::Value, toml::de::Error>)
    ensures
        match r {
            Ok(value) => parse_toml(text@) == Some(model_of(value)),
            Err(_) => parse_toml(text@) is None,
        },
{
    toml::from_str::<toml::Value>(text)
}

/// Calls `toml::to_string_pretty`.
///
/// Trusted: whether the value can be written, and the text that comes
/// back, depend on the value alone. Tables keep their entries in the order
/// of their keys, so the entries settle the text.
#[verifier::external_body]
fn render_document(doc: &toml::Value) -> (r: Result<String, toml::ser::Error>)
    ensures
        match r {
            Ok(text) => render_toml(model_of(*doc)) == Some(text@),
            Err(_) => render_toml(model_of(*doc)) is None,
        },
{
    toml::to_string_pretty(doc)
}

/// Calls `toml::Value::is_table`.
///
/// Trusted: the answer is whether the value is of the variant `Table`.
#[verifier::external_body]
fn is_table(value: &toml::Value) -> (b: bool)
    ensures
        b == (model_of(*value) is Table),
{
    value.is_table()
}

/// Calls `toml::Value::get` with a string key and clones what it finds.
///
/// Trusted: a table answers with a copy of the value it holds under the
/// key, if it holds one; a value of another kind has no entries.
#[verifier::external_body]
fn entry_of(value: &toml::Value, key: &str) -> (r: Option<toml::Value>)
    ensures
        match r {
            Some(found) => model_of(*value) is Table && model_of(*value)->Table_0.contains_key(
                key@,
            ) && model_of(found) == model_of(*value)->Table_0[key@],
            None => !(model_of(*value) is Table && model_of(*value)->Table_0.contains_key(key@)),
        },
{
    value.get(key).cloned()
}

/// Calls `toml::map::Map::insert` on the table inside a value.
///
/// Trusted: afterwards the table holds the new value under the key, and
/// under every other key what it held before.
#[verifier::external_body]
fn set_entry(table: &mut toml::Value, key: &str, value: toml::Value)
    requires
        model_of(*old(table)) is Table,
    ensures
        model_of(*final(table)) == Toml::Table(
            model_of(*old(table))->Table_0.insert(key@, model_of(value)),
        ),
{
    if let toml::Value::Table(entries) = table {
        entries.insert(key.to_string(), value);
    }
}

/// Calls `toml::map::Map::new` and wraps the map as a value.
///
/// Trusted: the result is a table without entries.
#[verifier::external_body]
fn empty_table() -> (value: toml::Value)
    ensures
        model_of(value) == Toml::Table(Map::empty()),
{
    toml::Value::Table(toml::map::Map::new())
}

/// Builds a `toml::Value::String`.
///
/// Trusted: the result is a string value with the characters of `text`.
#[verifier::external_body]
fn string_value(text: &str) -> (value: toml::Value)
    ensures
        model_of(value) == Toml::String(text@),
{
    toml::Value::String(text.to_string())
}

/// Turns a parsed configuration into the manifest: the package table gets
/// the fixed name, version and edition, whatever the configuration says of
/// them, and is added where the configuration has none. All other entries
/// stay.
pub fn merge(doc: toml::Value) -> (r: Result<toml::Value, ManifestError>)
    ensures
        match r {
            Ok(manifest) => merge_of(model_of(doc)) == Ok::<Toml, ManifestError>(
                model_of(manifest),
            ),
            Err(e) => merge_of(model_of(doc)) == Err::<Toml, ManifestError>(e),
        },
{
    if !is_table(&doc) {
        return Err(ManifestError::NotTable);
    }
    let mut package = match entry_of(&doc, PACKAGE) {
        Some(found) => {
            if !is_table(&found) {
                return Err(ManifestError::PackageNotTable);
            }
            found
        },
        None => empty_table(),
    };
    assert(model_of(package) == Toml::Table(package_of(model_of(doc)->Table_0)));
    set_entry(&mut package, NAME, string_value(FIXED_NAME));
    set_entry(&mut package, VERSION, string_value(FIXED_VERSION));
    set_entry(&mut package, EDITION, string_value(FIXED_EDITION));
    let mut manifest = doc;
    set_entry(&mut manifest, PACKAGE, package);
    Ok(manifest)
}

/// Derives the manifest text from a script's configuration text.
pub fn manifest(config: &str) -> (r: Result<String, ManifestError>)
    ensures
        match r {
            Ok(text) => manifest_of(config@) == Ok::<Seq<char>, ManifestError>(text@),
            Err(e) => manifest_of(config@) == Err::<Seq<char>, ManifestError>(e),
        },
{
    let doc = match parse_document(config) {
        Ok(doc) => doc,
        Err(_) => {
            return Err(ManifestError::Syntax);
        },
    };
    let merged = match merge(doc) {
        Ok(merged) => merged,
        Err(e) => {
            return Err(e);
        },
    };
    match render_document(&merged) {
        Ok(text) => Ok(text),
        Err(_) => Err(ManifestError::Unrenderable),
    }
}

/// The three fixed keys are three different keys.
proof fn lemma_fixed_keys_differ()
    ensures
        NAME@ != VERSION@,
        NAME@ != EDITION@,
        VERSION@ != EDITION@,
{
    reveal_strlit("name");
    reveal_strlit("version");
    reveal_strlit("edition");
    assert(NAME@.len() == 4);
    assert(VERSION@.len() == 7);
    assert(EDITION@.len() == 7);
    assert(VERSION@[0] == 'v');
    assert(EDITION@[0] == 'e');
}

/// The override of name, version and edition is total. Whatever a
/// configuration says of them, the manifest's package table has the fixed
/// name, version and edition. Everything else is kept: the other entries of
/// the package table, and the entries of the configuration beside `package`.
pub proof fn lemma_fixed_fields_override(config: Map<Seq<char>, Toml>)
    ensures
        merged(config) is Table,
        merged(config)->Table_0.dom() == config.dom().insert(PACKAGE@),
        forall|key: Seq<char>|
            key != PACKAGE@ && config.contains_key(key) ==> #[trigger] merged(config)->Table_0[key]
                == config[key],
        merged(config)->Table_0[PACKAGE@] is Table,
        ({
            let package = merged(config)->Table_0[PACKAGE@]->Table_0;
            &&& package[NAME@] == Toml::String(FIXED_NAME@)
            &&& package[VERSION@] == Toml::String(FIXED_VERSION@)
            &&& package[EDITION@] == Toml::String(FIXED_EDITION@)
            &&& package.dom() == package_of(config).dom().insert(NAME@).insert(VERSION@).insert(
                EDITION@,
            )
            &&& forall|key: Seq<char>|
                key != NAME@ && key != VERSION@ && key != EDITION@ && package_of(
                    config,
                ).contains_key(key) ==> #[trigger] package[key] == package_of(config)[key]
        }),
{
    lemma_fixed_keys_differ();
    let package = merged(config)->Table_0[PACKAGE@]->Table_0;
    assert(package == fixed_package(package_of(config)));
    assert(merged(config)->Table_0.dom() =~= config.dom().insert(PACKAGE@));
    assert(package.dom() =~= package_of(config).dom().insert(NAME@).insert(VERSION@).insert(
        EDITION@,
    ));
}

/// The override is silent. A configuration that is a table is turned into
/// a manifest unless it has an entry `package` that is no table: that it
/// sets a name, a version or an edition of its own is no error.
pub proof fn lemma_override_is_silent(config: Map<Seq<char>, Toml>)
    ensures
        merge_of(Toml::Table(config)) is Ok <==> (config.contains_key(PACKAGE@)
            ==> config[PACKAGE@] is Table),
        merge_of(Toml::Table(config)) is Ok ==> merge_of(Toml::Table(config)) == Ok::<
            Toml,
            ManifestError,
        >(merged(config)),
{
}

/// A manifest is its own manifest: merging what was merged changes nothing.
pub proof fn lemma_merge_is_idempotent(doc: Toml)
    ensures
        merge_of(doc) matches Ok(manifest) ==> merge_of(manifest) == Ok::<Toml, ManifestError>(
            manifest,
        ),
{
    if merge_of(doc) is Ok {
        let config = doc->Table_0;
        let once = merged(config)->Table_0;
        lemma_fixed_keys_differ();
        let package = fixed_package(package_of(config));
        assert(package_of(once) == package);
        assert(fixed_package(package) =~= package);
        assert(once.insert(PACKAGE@, Toml::Table(package)) =~= once);
    }
}

} // verus!
