//! The lockfile loader: deserializes a TOML document into the package
//! list, checking each `[[package]]` entry against the record schema.
//!
//! The TOML parsing itself is an outside capability. Its results are
//! deterministic functions of the text alone, so they are given names:
//! [`toml_doc`] (the text parses), [`doc_packages`] (the document's
//! `package` entries), and per-value field names ([`entry_str`],
//! [`entry_bool`]) that the trusted accessor wrappers' contracts apply.
//! Over those names the loader's contracts are exact: loading succeeds
//! if and only if the text parses, holds a `package` array, and every
//! entry carries the six required fields with the right types; the
//! records then hold exactly the named field values, in entry order.

use vstd::prelude::*;
use vstd::string::*;
use crate::model::{LockFile, Package, PackageView};

verus! {

/// Why a lockfile could not be loaded.
#[derive(Debug, PartialEq, Eq)]
pub enum LoadError {
    /// The text is not a well-formed TOML document.
    Syntax,
    /// A package record is missing a required field, a field has the
    /// wrong type, or the package list itself is absent or not an array.
    Schema,
}

#[verifier::external_type_specification]
#[verifier::external_body]
pub struct ExTomlValue(toml::Value);

#[verifier::external_type_specification]
#[verifier::external_body]
#[verifier::reject_recursive_types(K)]
#[verifier::reject_recursive_types(V)]
pub struct ExTomlMap<K, V>(toml::map::Map<K, V>);

/// Whether `text` parses as a well-formed TOML document.
pub uninterp spec fn toml_doc(text: Seq<char>) -> bool;

/// The `[[package]]` entries of the document that `text` denotes: the
/// value of its `package` key when that key is present and holds an
/// array, the entries in document order; `None` otherwise.
pub uninterp spec fn doc_packages(text: Seq<char>) -> Option<Seq<toml::Value>>;

/// The `package` entries of an already parsed top-level table: as
/// [`doc_packages`], but of the table value itself.
pub uninterp spec fn table_packages(t: toml::Table) -> Option<Seq<toml::Value>>;

/// The elements of an array value, in order; `None` for any other kind
/// of value.
pub uninterp spec fn array_items(v: toml::Value) -> Option<Seq<toml::Value>>;

/// The string payload of a string value; `None` for any other kind.
pub uninterp spec fn str_payload(v: toml::Value) -> Option<Seq<char>>;

/// The boolean payload of a boolean value; `None` for any other kind.
pub uninterp spec fn bool_payload(v: toml::Value) -> Option<bool>;

/// The string payload of field `key` of `v`: `Some` exactly when `v` is
/// a table whose field `key` holds a string.
pub uninterp spec fn entry_str(v: toml::Value, key: Seq<char>) -> Option<Seq<char>>;

/// The boolean payload of field `key` of `v`: `Some` exactly when `v` is
/// a table whose field `key` holds a boolean.
pub uninterp spec fn entry_bool(v: toml::Value, key: Seq<char>) -> Option<bool>;

/// Relies on toml's document parser (`FromStr` for `toml::Table`): it
/// returns `Ok` exactly for well-formed TOML text, deterministically, so
/// the parsed table's `package` entries are a function of the text.
#[verifier::external_body]
fn parse_toml_table(text: &str) -> (r: Option<toml::Table>)
    ensures
        r is Some <==> toml_doc(text@),
        r matches Some(t) ==> table_packages(t) == doc_packages(text@),
{
    text.parse::<toml::Table>().ok()
}

/// Relies on `toml::map::Map::get`: looks a key up in the top-level
/// table; for the `package` key that lookup, followed by reading the
/// value's array elements, is what [`table_packages`] names.
#[verifier::external_body]
fn table_get<'a>(t: &'a toml::Table, key: &str) -> (r: Option<&'a toml::Value>)
    ensures
        key@ == "package"@ && r is None ==> table_packages(*t) is None,
        key@ == "package"@ ==> (r matches Some(v) ==> array_items(*v) == table_packages(*t)),
{
    t.get(key)
}

/// Relies on `toml::Value::get`: looks a key up, `None` for a missing
/// key or a non-table value; the payloads of the field it finds are what
/// [`entry_str`] and [`entry_bool`] name.
#[verifier::external_body]
fn value_get<'a>(v: &'a toml::Value, key: &str) -> (r: Option<&'a toml::Value>)
    ensures
        r is None ==> entry_str(*v, key@) is None && entry_bool(*v, key@) is None,
        r matches Some(w) ==> str_payload(*w) == entry_str(*v, key@) && bool_payload(*w)
            == entry_bool(*v, key@),
{
    v.get(key)
}

/// Relies on `toml::Value::as_str`: the payload of a string value,
/// `None` for any other kind of value.
#[verifier::external_body]
fn value_as_str<'a>(v: &'a toml::Value) -> (r: Option<&'a str>)
    ensures
        r is Some <==> str_payload(*v) is Some,
        r matches Some(s) ==> Some(s@) == str_payload(*v),
{
    v.as_str()
}

/// Relies on `toml::Value::as_bool`: the payload of a boolean value,
/// `None` for any other kind of value.
#[verifier::external_body]
fn value_as_bool(v: &toml::Value) -> (r: Option<bool>)
    ensures
        r == bool_payload(*v),
{
    v.as_bool()
}

/// Relies on `toml::Value::as_array`: the elements of an array value in
/// document order, `None` for any other kind of value.
#[verifier::external_body]
fn value_as_array<'a>(v: &'a toml::Value) -> (r: Option<&'a Vec<toml::Value>>)
    ensures
        r is Some <==> array_items(*v) is Some,
        r matches Some(a) ==> Some(a@) == array_items(*v),
{
    v.as_array()
}

/// Whether one `[[package]]` entry matches the record schema: all six
/// required fields present with the right types. Any further fields or
/// sub-tables of the entry are never consulted, so they cannot affect
/// the outcome.
pub open spec fn entry_valid(v: toml::Value) -> bool {
    &&& entry_str(v, "category"@) is Some
    &&& entry_str(v, "description"@) is Some
    &&& entry_str(v, "name"@) is Some
    &&& entry_bool(v, "optional"@) is Some
    &&& entry_str(v, "python-versions"@) is Some
    &&& entry_str(v, "version"@) is Some
}

/// The record a valid entry denotes: the six named field values, with
/// the external `python-versions` key mapped to `python_versions`.
pub open spec fn entry_record(v: toml::Value) -> PackageView {
    PackageView {
        category: entry_str(v, "category"@)->0,
        description: entry_str(v, "description"@)->0,
        name: entry_str(v, "name"@)->0,
        optional: entry_bool(v, "optional"@)->0,
        python_versions: entry_str(v, "python-versions"@)->0,
        version: entry_str(v, "version"@)->0,
    }
}

/// Whether every entry of a package list matches the record schema.
pub open spec fn packages_valid(entries: Seq<toml::Value>) -> bool {
    forall|i: int| 0 <= i < entries.len() ==> entry_valid(#[trigger] entries[i])
}

/// The records of a package list, one per entry, in order.
pub open spec fn loaded_records(entries: Seq<toml::Value>) -> Seq<PackageView> {
    entries.map_values(|v: toml::Value| entry_record(v))
}

/// Whether loading the document `text` denotes succeeds: it parses,
/// holds a `package` array, and every entry matches the record schema.
pub open spec fn load_ok(text: Seq<char>) -> bool {
    &&& toml_doc(text)
    &&& doc_packages(text) is Some
    &&& packages_valid(doc_packages(text)->0)
}

/// Builds one package record from the extracted fields of one
/// `[[package]]` entry: `Some` for a field that was present with the
/// right type, `None` otherwise. The record is built if and only if
/// every field is there, and carries the field values unchanged.
pub fn package_from_fields(
    category: Option<&str>,
    description: Option<&str>,
    name: Option<&str>,
    optional: Option<bool>,
    python_versions: Option<&str>,
    version: Option<&str>,
) -> (r: Result<Package, LoadError>)
    ensures
        r is Ok <==> (category is Some && description is Some && name is Some
            && optional is Some && python_versions is Some && version is Some),
        r matches Ok(p) ==> {
            &&& category matches Some(c) && p@.category == c@
            &&& description matches Some(d) && p@.description == d@
            &&& name matches Some(m) && p@.name == m@
            &&& optional matches Some(o) && p@.optional == o
            &&& python_versions matches Some(v) && p@.python_versions == v@
            &&& version matches Some(w) && p@.version == w@
        },
        r matches Err(e) ==> e == LoadError::Schema,
{
    match (category, description, name, optional, python_versions, version) {
        (Some(c), Some(d), Some(m), Some(o), Some(v), Some(w)) => Ok(Package {
            category: String::from_str(c),
            description: String::from_str(d),
            name: String::from_str(m),
            optional: o,
            python_versions: String::from_str(v),
            version: String::from_str(w),
        }),
        _ => Err(LoadError::Schema),
    }
}

/// Extracts one field of an entry as a string: exactly the value that
/// [`entry_str`] names, when there is one.
fn entry_str_field<'a>(entry: &'a toml::Value, key: &str) -> (r: Option<&'a str>)
    ensures
        r is Some <==> entry_str(*entry, key@) is Some,
        r matches Some(s) ==> Some(s@) == entry_str(*entry, key@),
{
    match value_get(entry, key) {
        Some(v) => value_as_str(v),
        None => None,
    }
}

/// Extracts one field of an entry as a boolean: exactly the value that
/// [`entry_bool`] names.
fn entry_bool_field(entry: &toml::Value, key: &str) -> (r: Option<bool>)
    ensures
        r == entry_bool(*entry, key@),
{
    match value_get(entry, key) {
        Some(v) => value_as_bool(v),
        None => None,
    }
}

/// Builds the package list from the `[[package]]` entries, walked in
/// order: it succeeds if and only if every entry matches the record
/// schema, and then yields exactly one record per entry, carrying the
/// entry's named field values; it fails atomically on the first entry
/// that does not match.
pub fn lockfile_from_entries(entries: &Vec<toml::Value>) -> (r: Result<LockFile, LoadError>)
    ensures
        r is Ok <==> packages_valid(entries@),
        r matches Ok(l) ==> l@ == loaded_records(entries@),
        r matches Err(e) ==> e == LoadError::Schema,
{
    let mut packages: Vec<Package> = Vec::new();
    let mut i: usize = 0;
    while i < entries.len()
        invariant
            i <= entries.len(),
            packages@.len() == i,
            forall|j: int| 0 <= j < i ==> entry_valid(#[trigger] entries@[j]),
            forall|j: int| 0 <= j < i ==> packages@[j]@ == entry_record(#[trigger] entries@[j]),
        decreases entries.len() - i,
    {
        let entry = &entries[i];
        let built = package_from_fields(
            entry_str_field(entry, "category"),
            entry_str_field(entry, "description"),
            entry_str_field(entry, "name"),
            entry_bool_field(entry, "optional"),
            entry_str_field(entry, "python-versions"),
            entry_str_field(entry, "version"),
        );
        match built {
            Ok(p) => {
                proof {
                    assert(entry_valid(entries@[i as int]));
                    assert(p@ =~~= entry_record(entries@[i as int]));
                }
                packages.push(p);
            },
            Err(e) => {
                proof {
                    assert(!entry_valid(entries@[i as int]));
                }
                return Err(e);
            },
        }
        i = i + 1;
    }
    let l = LockFile { package: packages };
    proof {
        assert(l@ =~~= loaded_records(entries@));
    }
    Ok(l)
}

/// Deserializes a lockfile document.
///
/// Loading succeeds if and only if the text is a well-formed TOML
/// document holding a `package` array whose every entry matches the
/// record schema (see [`lockfile_from_entries`]); the result then holds
/// exactly the entries' named field values, in document order, so equal
/// text always yields equal records. A document that is not well-formed
/// TOML gives [`LoadError::Syntax`]; anything else that goes wrong gives
/// [`LoadError::Schema`]. On any failure no partial result is returned.
pub fn parse_lockfile(text: &str) -> (r: Result<LockFile, LoadError>)
    ensures
        r is Ok <==> load_ok(text@),
        r == Err::<LockFile, LoadError>(LoadError::Syntax) <==> !toml_doc(text@),
        r matches Ok(l) ==> l@ == loaded_records(doc_packages(text@)->0),
{
    let doc = match parse_toml_table(text) {
        Some(d) => d,
        None => {
            return Err(LoadError::Syntax);
        },
    };
    let pkg_val = match table_get(&doc, "package") {
        Some(v) => v,
        None => {
            return Err(LoadError::Schema);
        },
    };
    let arr = match value_as_array(pkg_val) {
        Some(a) => a,
        None => {
            return Err(LoadError::Schema);
        },
    };
    match lockfile_from_entries(arr) {
        Ok(l) => Ok(l),
        Err(e) => Err(e),
    }
}

} // verus!
