use vstd::prelude::*;

use crate::error::{BuildError, ManifestField};

verus! {

#[verifier::external_type_specification]
#[verifier::external_body]
pub struct ExTomlValue(toml::Value);

#[verifier::external_type_specification]
#[verifier::external_body]
pub struct ExTomlError(toml::de::Error);

/// What a TOML value holds, as far as the manifest reader looks into it.
pub enum TomlShape {
    /// A string, with its characters.
    Text(Seq<char>),
    /// A table, with its entries by key.
    Table(Map<Seq<char>, TomlShape>),
    /// Any other kind of value (number, boolean, date, array).
    Other,
}

/// What a parsed TOML value holds.
pub uninterp spec fn toml_shape(v: toml::Value) -> TomlShape;

/// The document that a TOML text parses to, or `None` where it does not parse.
pub uninterp spec fn toml_document(text: Seq<char>) -> Option<TomlShape>;

/// Relies on `toml::Value`'s `FromStr` (toml::from_str): the result depends on the text alone.
#[verifier::external_body]
fn parse_toml(text: &str) -> (r: Result<toml::Value, toml::de::Error>)
    ensures
        match r {
            Ok(v) => toml_document(text@) == Some(toml_shape(v)),
            Err(_) => toml_document(text@) is None,
        },
{
    text.parse::<toml::Value>()
}

/// Relies on the `Display` text of `toml::de::Error`, which is only shown to the operator.
#[verifier::external_body]
fn toml_error_text(e: &toml::de::Error) -> String {
    e.to_string()
}

/// Relies on `toml::Value::is_table`: true of a table, false of any other value.
#[verifier::external_body]
fn toml_is_table(v: &toml::Value) -> (r: bool)
    ensures
        r == (toml_shape(*v) is Table),
{
    v.is_table()
}

/// Relies on `toml::Value::get` with a string key: the entry of a table under
/// that key, and `None` for a missing key or a value that is no table.
#[verifier::external_body]
fn toml_get<'a>(v: &'a toml::Value, key: &str) -> (r: Option<&'a toml::Value>)
    ensures
        match toml_shape(*v) {
            TomlShape::Table(m) => match r {
                Some(e) => m.contains_key(key@) && toml_shape(*e) == m[key@],
                None => !m.contains_key(key@),
            },
            _ => r is None,
        },
{
    v.get(key)
}

/// Relies on `toml::Value::as_str`: the characters of a string value, `None` for any other value.
#[verifier::external_body]
fn toml_as_str(v: &toml::Value) -> (r: Option<&str>)
    ensures
        match toml_shape(*v) {
            TomlShape::Text(s) => r is Some && r->Some_0@ == s,
            _ => r is None,
        },
{
    v.as_str()
}

/// The identity of an extension: what the manifest's `package` table names.
#[derive(Debug, Clone)]
pub struct ExtensionInfo {
    pub name: String,
    pub description: String,
    pub version: String,
}

/// The characters of an extension's identity.
pub struct Identity {
    pub name: Seq<char>,
    pub description: Seq<char>,
    pub version: Seq<char>,
}

impl View for ExtensionInfo {
    type V = Identity;

    open spec fn view(&self) -> Identity {
        Identity { name: self.name@, description: self.description@, version: self.version@ }
    }
}

/// The entry of a table under `key`, if the value is a table that has one.
pub open spec fn entry(t: TomlShape, key: Seq<char>) -> Option<TomlShape> {
    match t {
        TomlShape::Table(m) => if m.contains_key(key) {
            Some(m[key])
        } else {
            None
        },
        _ => None,
    }
}

/// The string under `key` in a table, if the table holds a string there.
pub open spec fn text_entry(t: TomlShape, key: Seq<char>) -> Option<Seq<char>> {
    match entry(t, key) {
        Some(TomlShape::Text(s)) => Some(s),
        _ => None,
    }
}

/// What a manifest document gives: the identity in its `package` table, or the
/// first entry that is absent or of the wrong kind, in the order package, name,
/// description, version.
pub open spec fn manifest_identity(doc: TomlShape) -> Result<Identity, ManifestField> {
    match entry(doc, "package"@) {
        Some(pkg) => if !(pkg is Table) {
            Err(ManifestField::Package)
        } else if text_entry(pkg, "name"@) is None {
            Err(ManifestField::Name)
        } else if text_entry(pkg, "description"@) is None {
            Err(ManifestField::Description)
        } else if text_entry(pkg, "version"@) is None {
            Err(ManifestField::Version)
        } else {
            Ok(
                Identity {
                    name: text_entry(pkg, "name"@)->Some_0,
                    description: text_entry(pkg, "description"@)->Some_0,
                    version: text_entry(pkg, "version"@)->Some_0,
                },
            )
        },
        None => Err(ManifestField::Package),
    }
}

/// What reading a manifest text gives: `Malformed` where it is no TOML, else
/// the identity of its document or the entry that it lacks.
pub open spec fn manifest_outcome(text: Seq<char>, r: Result<ExtensionInfo, BuildError>) -> bool {
    match toml_document(text) {
        None => r is Err && r->Err_0 is ManifestMalformed,
        Some(doc) => identity_outcome(doc, r),
    }
}

/// What reading a parsed document gives: its identity, or `Incomplete` naming
/// the first entry that it lacks.
pub open spec fn identity_outcome(doc: TomlShape, r: Result<ExtensionInfo, BuildError>) -> bool {
    match manifest_identity(doc) {
        Ok(id) => r is Ok && r->Ok_0@ == id,
        Err(f) => r is Err && r->Err_0 == BuildError::ManifestIncomplete(f),
    }
}

/// The string under `key` in `table`, or the error that names `field`.
fn string_entry(table: &toml::Value, key: &str, field: ManifestField) -> (r: Result<String, BuildError>)
    ensures
        match text_entry(toml_shape(*table), key@) {
            Some(s) => r is Ok && r->Ok_0@ == s,
            None => r == Err::<String, BuildError>(BuildError::ManifestIncomplete(field)),
        },
{
    match toml_get(table, key) {
        Some(v) => match toml_as_str(v) {
            Some(s) => Ok(s.to_owned()),
            None => Err(BuildError::ManifestIncomplete(field)),
        },
        None => Err(BuildError::ManifestIncomplete(field)),
    }
}

/// Reads the extension's identity from a parsed manifest document.
pub fn identity_from_document(doc: &toml::Value) -> (r: Result<ExtensionInfo, BuildError>)
    ensures
        identity_outcome(toml_shape(*doc), r),
{
    let pkg = match toml_get(doc, "package") {
        Some(p) => p,
        None => return Err(BuildError::ManifestIncomplete(ManifestField::Package)),
    };
    if !toml_is_table(pkg) {
        return Err(BuildError::ManifestIncomplete(ManifestField::Package));
    }
    let name = string_entry(pkg, "name", ManifestField::Name)?;
    let description = string_entry(pkg, "description", ManifestField::Description)?;
    let version = string_entry(pkg, "version", ManifestField::Version)?;
    Ok(ExtensionInfo { name, description, version })
}

/// Reads the extension's identity from the text of its manifest.
pub fn crate_info_from_toml(text: &str) -> (r: Result<ExtensionInfo, BuildError>)
    ensures
        manifest_outcome(text@, r),
{
    match parse_toml(text) {
        Ok(doc) => identity_from_document(&doc),
        Err(e) => Err(BuildError::ManifestMalformed(toml_error_text(&e))),
    }
}

/// A manifest whose `package` table holds `name`, `description` and `version`
/// as strings gives exactly those three strings; one that lacks any of them,
/// or holds it as another kind of value, is incomplete.
pub proof fn lemma_manifest_fields(doc: TomlShape)
    ensures
        ({
            let pkg = entry(doc, "package"@);
            pkg is Some && text_entry(pkg->Some_0, "name"@) is Some
                && text_entry(pkg->Some_0, "description"@) is Some
                && text_entry(pkg->Some_0, "version"@) is Some
        }) ==> manifest_identity(doc) == Ok::<Identity, ManifestField>(
            Identity {
                name: text_entry(entry(doc, "package"@)->Some_0, "name"@)->Some_0,
                description: text_entry(entry(doc, "package"@)->Some_0, "description"@)->Some_0,
                version: text_entry(entry(doc, "package"@)->Some_0, "version"@)->Some_0,
            },
        ),
        ({
            let pkg = entry(doc, "package"@);
            pkg is None || text_entry(pkg->Some_0, "name"@) is None
                || text_entry(pkg->Some_0, "description"@) is None
                || text_entry(pkg->Some_0, "version"@) is None
        }) ==> manifest_identity(doc) is Err,
{
}

} // verus!
