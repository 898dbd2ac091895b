//! Reading the package name out of a Cargo manifest, through the `toml`
//! crate's document model.
use vstd::prelude::*;

verus! {

/// The `toml` crate's key/value map (`toml::Table` is `Map<String, Value>`),
/// carried as an opaque value.
#[verifier::external_type_specification]
#[verifier::external_body]
#[verifier::reject_recursive_types(K)]
#[verifier::reject_recursive_types(V)]
pub struct ExTomlMap<K, V>(toml::map::Map<K, V>);

/// A TOML value of the `toml` crate, carried as an opaque value.
#[verifier::external_type_specification]
#[verifier::external_body]
pub struct ExTomlValue(toml::Value);

/// The `toml` crate's parse error; only its presence is used.
#[verifier::external_type_specification]
#[verifier::external_body]
pub struct ExTomlError(toml::de::Error);

/// The table that the TOML text `s` parses to, if it is a valid document.
pub uninterp spec fn toml_document(s: Seq<char>) -> Option<toml::Table>;

/// The key/value entries of a TOML table.
pub uninterp spec fn table_entries(t: toml::Table) -> Map<Seq<char>, toml::Value>;

/// The table held by a TOML value, if it is a table.
pub uninterp spec fn value_table(v: toml::Value) -> Option<toml::Table>;

/// The string held by a TOML value, if it is a string.
pub uninterp spec fn value_text(v: toml::Value) -> Option<Seq<char>>;

/// Relies on `toml::from_str` into a `toml::Table`: it fails exactly on text
/// that is not a valid TOML document, and otherwise yields the document's
/// top-level table, which depends on the text alone.
#[verifier::external_body]
fn parse_toml(s: &str) -> (r: Result<toml::Table, toml::de::Error>)
    ensures
        r is Ok <==> toml_document(s@) is Some,
        r matches Ok(t) ==> toml_document(s@) == Some(t),
{
    toml::from_str::<toml::Table>(s)
}

/// Relies on `toml::map::Map::get`: the value stored under `key`, if any.
#[verifier::external_body]
fn table_get<'a>(t: &'a toml::Table, key: &str) -> (r: Option<&'a toml::Value>)
    ensures
        r is Some <==> table_entries(*t).contains_key(key@),
        r matches Some(v) ==> *v == table_entries(*t)[key@],
{
    t.get(key)
}

/// Relies on `toml::Value::as_table`: the table of a `Value::Table`, and
/// nothing for any other variant.
#[verifier::external_body]
fn as_table(v: &toml::Value) -> (r: Option<&toml::Table>)
    ensures
        r is Some <==> value_table(*v) is Some,
        r matches Some(t) ==> value_table(*v) == Some(*t),
{
    v.as_table()
}

/// Relies on `toml::Value::as_str`: the string of a `Value::String`, and
/// nothing for any other variant.
#[verifier::external_body]
fn as_str(v: &toml::Value) -> (r: Option<&str>)
    ensures
        r is Some <==> value_text(*v) is Some,
        r matches Some(s) ==> value_text(*v) == Some(s@),
{
    v.as_str()
}

/// Why no project name could be read from a manifest.
#[derive(Debug, Clone, Copy, PartialEq, Eq, Structural)]
pub enum ProjectNameError {
    /// The manifest could not be read.
    Unreadable,
    /// The manifest is not valid TOML.
    InvalidToml,
    /// There is no `package` table.
    MissingPackage,
    /// The `package` table has no string `name`.
    MissingName,
}

/// The `package.name` string of a parsed manifest.
pub open spec fn package_name_of(doc: toml::Table) -> Result<Seq<char>, ProjectNameError> {
    let top = table_entries(doc);
    if !top.contains_key("package"@) || value_table(top["package"@]) is None {
        Err(ProjectNameError::MissingPackage)
    } else {
        let package = table_entries(value_table(top["package"@])->Some_0);
        if !package.contains_key("name"@) || value_text(package["name"@]) is None {
            Err(ProjectNameError::MissingName)
        } else {
            Ok(value_text(package["name"@])->Some_0)
        }
    }
}

/// The `package.name` string of a manifest's text.
pub open spec fn package_name(text: Seq<char>) -> Result<Seq<char>, ProjectNameError> {
    match toml_document(text) {
        None => Err(ProjectNameError::InvalidToml),
        Some(doc) => package_name_of(doc),
    }
}

/// Whether a result carries the name `expected` (or the same error).
pub open spec fn same_answer(
    r: Result<String, ProjectNameError>,
    expected: Result<Seq<char>, ProjectNameError>,
) -> bool {
    match r {
        Ok(n) => expected == Ok::<Seq<char>, ProjectNameError>(n@),
        Err(e) => expected == Err::<Seq<char>, ProjectNameError>(e),
    }
}

/// The package name found in a parsed manifest.
pub fn package_name_in(doc: &toml::Table) -> (r: Result<String, ProjectNameError>)
    ensures
        same_answer(r, package_name_of(*doc)),
{
    let package = match table_get(doc, "package") {
        Some(v) => match as_table(v) {
            Some(t) => t,
            None => return Err(ProjectNameError::MissingPackage),
        },
        None => return Err(ProjectNameError::MissingPackage),
    };
    match table_get(package, "name") {
        Some(v) => match as_str(v) {
            Some(s) => Ok(String::from_str(s)),
            None => Err(ProjectNameError::MissingName),
        },
        None => Err(ProjectNameError::MissingName),
    }
}

/// The package name found in the text of a Cargo manifest.
pub fn read_project_name_from_cargo_toml(text: &str) -> (r: Result<String, ProjectNameError>)
    ensures
        same_answer(r, package_name(text@)),
{
    match parse_toml(text) {
        Ok(doc) => package_name_in(&doc),
        Err(_) => Err(ProjectNameError::InvalidToml),
    }
}

} // verus!
