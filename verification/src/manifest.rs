//! Package-manifest access through the toml_edit parser: reading the
//! package name and rewriting it for a freshly scaffolded plugin.

use vstd::prelude::*;
use crate::errors::CliError;
use crate::text;

verus! {

/// The `package.name` entry of a manifest text: None when the text does not
/// parse as a manifest or lacks the entry. A function of the text alone.
pub uninterp spec fn manifest_package_name(content: Seq<char>) -> Option<Seq<char>>;

/// The manifest text with its `package.name` entry set to `name`: None when
/// the text does not parse or holds no `package` table to write into. A
/// function of the two texts alone.
pub uninterp spec fn manifest_with_package_name(content: Seq<char>, name: Seq<char>) -> Option<
    Seq<char>,
>;

/// Relies on toml_edit's DocumentMut parser and table lookup: extracts the
/// `package.name` string of the manifest, None when parsing fails or the
/// entry is absent.
#[verifier::external_body]
fn package_name_raw(content: &str) -> (r: Option<String>)
    ensures
        r matches Some(n) ==> manifest_package_name(content@) == Some(n@),
        r is None ==> manifest_package_name(content@) is None,
{
    match content.parse::<toml_edit::DocumentMut>() {
        Ok(doc) => doc
            .get("package")
            .and_then(|item| item.as_table())
            .and_then(|table| table.get("name"))
            .and_then(|item| item.as_str())
            .map(|name| name.to_owned()),
        Err(_) => None,
    }
}

/// Relies on toml_edit's DocumentMut parser, table lookup, insertion and
/// rendering: rewrites the `package.name` entry to `name`; None when
/// parsing fails or `package` is not a table. The rendered text reads the
/// written name back through the parser.
#[verifier::external_body]
fn set_package_name_raw(content: &str, name: &str) -> (r: Option<String>)
    ensures
        r matches Some(out) ==> manifest_with_package_name(content@, name@) == Some(out@),
        r matches Some(out) ==> manifest_package_name(out@) == Some(name@),
        r is None ==> manifest_with_package_name(content@, name@) is None,
{
    let mut doc = match content.parse::<toml_edit::DocumentMut>() {
        Ok(d) => d,
        Err(_) => return None,
    };
    match doc.get_mut("package").and_then(|item| item.as_table_mut()) {
        Some(table) => table.insert("name", toml_edit::value(name)),
        None => return None,
    };
    Some(doc.to_string())
}

/// The `package.name` entry of the manifest text, when it has one.
pub fn manifest_package_name_of(content: &str) -> (r: Option<String>)
    ensures
        r matches Some(n) ==> manifest_package_name(content@) == Some(n@),
        r is None ==> manifest_package_name(content@) is None,
{
    package_name_raw(content)
}

/// The manifest text of a scaffolded plugin renamed to `plugin_<name>`;
/// fails when the text does not parse as a manifest with a `package`
/// table. A successful result reads the new name back through the parser.
pub fn rename_scaffolded_package(content: &str, plugin_name: &str) -> (r: Result<String, CliError>)
    ensures
        r matches Ok(out) ==> manifest_with_package_name(content@, "plugin_"@ + plugin_name@)
            == Some(out@),
        r matches Ok(out) ==> manifest_package_name(out@) == Some("plugin_"@ + plugin_name@),
        r matches Err(e) ==> e is ManifestMalformed && manifest_with_package_name(
            content@,
            "plugin_"@ + plugin_name@,
        ) is None,
{
    let new_name = text::concat2("plugin_", plugin_name);
    match set_package_name_raw(content, new_name.as_str()) {
        Some(out) => Ok(out),
        None => Err(CliError::ManifestMalformed),
    }
}

} // verus!
