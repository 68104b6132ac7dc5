//! The package manifest: a JSON object whose module-system and entry-point
//! keys are set, every other key kept.
use vstd::prelude::*;
use crate::inline::LOADER_MODULE_FILE;

verus! {

#[verifier::external_type_specification]
#[verifier::external_body]
pub struct ExJsonValue(serde_json::Value);

#[verifier::external_type_specification]
#[verifier::external_body]
#[verifier::reject_recursive_types(K)]
#[verifier::reject_recursive_types(V)]
pub struct ExJsonObject<K, V>(serde_json::Map<K, V>);

#[verifier::external_type_specification]
#[verifier::external_body]
pub struct ExJsonError(serde_json::Error);

/// A JSON object as it is held in memory.
pub type JsonObject = serde_json::Map<String, serde_json::Value>;

/// What an object holds: each key, with the compact JSON text of its value.
pub uninterp spec fn json_fields(m: JsonObject) -> Map<Seq<char>, Seq<char>>;

/// The fields of the object that `text` is, or `None` where it is not the
/// JSON text of one object.
pub uninterp spec fn json_object_parse(text: Seq<char>) -> Option<Map<Seq<char>, Seq<char>>>;

/// The compact JSON text of an object with these fields.
pub uninterp spec fn json_object_text(f: Map<Seq<char>, Seq<char>>) -> Seq<char>;

/// Characters that stand in a JSON string as they are: no quote, no
/// backslash, no control character.
pub open spec fn is_plain_json_text(s: Seq<char>) -> bool {
    forall|i: int|
        0 <= i < s.len() ==> #[trigger] s[i] != '"' && s[i] != '\\' && s[i] >= ' '
}

/// The JSON string that holds the plain text `s`.
pub open spec fn json_quoted(s: Seq<char>) -> Seq<char> {
    seq!['"'] + s + seq!['"']
}

/// Relies on `serde_json::from_str` into a `serde_json::Map`: the result
/// depends on the text alone.
#[verifier::external_body]
fn parse_json_object(text: &str) -> (r: Result<JsonObject, serde_json::Error>)
    ensures
        r is Ok <==> json_object_parse(text@) is Some,
        r matches Ok(m) ==> json_object_parse(text@) == Some(json_fields(m)),
{
    serde_json::from_str(text)
}

/// Relies on `serde_json::Map::insert` of a `Value::String`: the key now holds
/// that string, whose JSON text is the plain text between quotes; the other
/// keys are untouched.
#[verifier::external_body]
fn insert_string(m: &mut JsonObject, key: &str, value: &str)
    requires
        is_plain_json_text(value@),
    ensures
        json_fields(*final(m)) == json_fields(*old(m)).insert(key@, json_quoted(value@)),
{
    m.insert(key.to_owned(), value.into());
}

/// Relies on `serde_json::to_string` of a `serde_json::Map`: keys in sorted
/// order, so the text depends on the fields alone; with string keys and
/// `Value`s nothing can fail.
#[verifier::external_body]
fn json_object_to_string(m: &JsonObject) -> (r: Result<String, serde_json::Error>)
    ensures
        r is Ok,
        r matches Ok(t) ==> t@ == json_object_text(json_fields(*m)),
{
    serde_json::to_string(m)
}

/// The key that names the module system, and the value for ES modules.
pub const MODULE_SYSTEM_KEY: &'static str = "type";

pub const MODULE_SYSTEM_VALUE: &'static str = "module";

/// The key that names the package's entry point.
pub const ENTRY_POINT_KEY: &'static str = "main";

/// The fields `f` with the module system set to ES modules and the entry
/// point set to the loader module.
pub open spec fn patched_fields(f: Map<Seq<char>, Seq<char>>) -> Map<Seq<char>, Seq<char>> {
    f.insert(MODULE_SYSTEM_KEY@, json_quoted(MODULE_SYSTEM_VALUE@)).insert(
        ENTRY_POINT_KEY@,
        json_quoted(LOADER_MODULE_FILE@),
    )
}

/// Why the manifest could not be updated.
#[derive(Clone, Copy, Debug, PartialEq, Eq, Structural)]
pub enum ManifestError {
    /// The manifest is not the JSON text of one object.
    Parse,
    /// The updated object could not be written as JSON text.
    Serialize,
}

/// Sets the module-system and entry-point keys of the manifest object.
pub fn patch_manifest(manifest: &mut JsonObject)
    ensures
        json_fields(*final(manifest)) == patched_fields(json_fields(*old(manifest))),
{
    proof {
        reveal_strlit("module");
        reveal_strlit("merkleized_metadata_sys.js");
    }
    insert_string(manifest, MODULE_SYSTEM_KEY, MODULE_SYSTEM_VALUE);
    insert_string(manifest, ENTRY_POINT_KEY, LOADER_MODULE_FILE);
}

/// The manifest text with the module-system and entry-point keys set, every
/// other key kept.
pub fn update_manifest(text: &str) -> (r: Result<String, ManifestError>)
    ensures
        json_object_parse(text@) is None ==> r == Err::<String, ManifestError>(
            ManifestError::Parse,
        ),
        json_object_parse(text@) is Some ==> (r matches Ok(t) && t@ == json_object_text(
            patched_fields(json_object_parse(text@).unwrap()),
        )),
{
    match parse_json_object(text) {
        Ok(mut manifest) => {
            patch_manifest(&mut manifest);
            match json_object_to_string(&manifest) {
                Ok(t) => Ok(t),
                Err(_) => Err(ManifestError::Serialize),
            }
        },
        Err(_) => Err(ManifestError::Parse),
    }
}

/// After the update the manifest uses ES modules, its entry point is the
/// loader module, and every other key holds what it held before.
pub proof fn lemma_patch_keeps_other_keys(f: Map<Seq<char>, Seq<char>>)
    ensures
        patched_fields(f)[MODULE_SYSTEM_KEY@] == json_quoted(MODULE_SYSTEM_VALUE@),
        patched_fields(f)[ENTRY_POINT_KEY@] == json_quoted(LOADER_MODULE_FILE@),
        patched_fields(f).dom() == f.dom().insert(MODULE_SYSTEM_KEY@).insert(ENTRY_POINT_KEY@),
        forall|k: Seq<char>|
            k != MODULE_SYSTEM_KEY@ && k != ENTRY_POINT_KEY@ && f.contains_key(k) ==> (
            #[trigger] patched_fields(f)[k]) == f[k],
{
    reveal_strlit("type");
    reveal_strlit("main");
    assert(MODULE_SYSTEM_KEY@[0] != ENTRY_POINT_KEY@[0]);
}

} // verus!
