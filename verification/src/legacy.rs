//! Retired configuration surfaces: the legacy configuration files and the
//! named-slot timeframe keys that the duration-keyed schema replaced.
//! There is no fallback for either; the operator migrates.
use vstd::prelude::*;
use vstd::string::*;
use crate::text::{chars_of, same_text, string_from_chars};
use crate::workspace::ConfigError;

verus! {

/// A parsed TOML value, as far as the legacy-key check reads it.
#[derive(Debug)]
pub enum TomlValue {
    /// A table: its keys with their values (each key once).
    Table(Vec<(String, TomlValue)>),
    Array(Vec<TomlValue>),
    Text(String),
    /// Any other scalar (number, boolean, date-time).
    Scalar,
}

/// The value stored under `key` among `entries`, from position `k` on
/// (the first such entry).
pub open spec fn entry_value(entries: Seq<(String, TomlValue)>, key: Seq<char>, k: int) -> Option<TomlValue>
    decreases entries.len() - k,
{
    if k < 0 || k >= entries.len() {
        None
    } else if entries[k].0@ == key {
        Some(entries[k].1)
    } else {
        entry_value(entries, key, k + 1)
    }
}

/// The value under `key` when `v` is a table.
pub open spec fn table_get(v: TomlValue, key: Seq<char>) -> Option<TomlValue> {
    match v {
        TomlValue::Table(entries) => entry_value(entries@, key, 0),
        _ => None,
    }
}

/// The value under `key` when `v` is a table.
pub fn toml_get<'a>(v: &'a TomlValue, key: &str) -> (r: Option<&'a TomlValue>)
    ensures
        match r {
            Some(x) => table_get(*v, key@) == Some(*x),
            None => table_get(*v, key@) is None,
        },
{
    match v {
        TomlValue::Table(entries) => {
            let mut k: usize = 0;
            while k < entries.len()
                invariant
                    k <= entries@.len(),
                    table_get(*v, key@) == entry_value(entries@, key@, 0),
                    entry_value(entries@, key@, 0) == entry_value(entries@, key@, k as int),
                decreases entries.len() - k,
            {
                if same_text(entries[k].0.as_str(), key) {
                    assert(entry_value(entries@, key@, k as int) == Some(entries@[k as int].1));
                    return Some(&entries[k].1);
                }
                k = k + 1;
            }
            None
        },
        _ => None,
    }
}

/// The retired workspace-level timeframe keys.
pub open spec fn workspace_legacy_key(k: int) -> Seq<char> {
    if k == 0 {
        "active_slots"@
    } else {
        "active_timeframes"@
    }
}

/// The retired per-instance timeframe keys, in check order.
pub open spec fn instance_legacy_key(k: int) -> Seq<char> {
    if k == 0 {
        "micro_term"@
    } else if k == 1 {
        "fast_term"@
    } else if k == 2 {
        "slow_term"@
    } else if k == 3 {
        "macro_term"@
    } else {
        "custom_pipelines"@
    }
}

fn instance_legacy_key_text(k: usize) -> (t: &'static str)
    requires
        k < 5,
    ensures
        t@ == instance_legacy_key(k as int),
{
    if k == 0 {
        "micro_term"
    } else if k == 1 {
        "fast_term"
    } else if k == 2 {
        "slow_term"
    } else if k == 3 {
        "macro_term"
    } else {
        "custom_pipelines"
    }
}

/// The symbol an instance table names, or `<unknown>`.
pub open spec fn instance_symbol(inst: TomlValue) -> Seq<char> {
    match table_get(inst, "symbol"@) {
        Some(TomlValue::Text(s)) => s@,
        _ => "<unknown>"@,
    }
}

/// The first retired key present in an instance table, from position `k`
/// of the check order.
pub open spec fn instance_legacy_from(inst: TomlValue, k: int) -> Option<Seq<char>>
    decreases 5 - k,
{
    if k < 0 || k >= 5 {
        None
    } else if table_get(inst, instance_legacy_key(k)) is Some {
        Some(instance_legacy_key(k))
    } else {
        instance_legacy_from(inst, k + 1)
    }
}

/// The description of the first retired key over the instances from
/// position `i` on: `instance <symbol>: <key>`.
pub open spec fn instances_legacy_from(items: Seq<TomlValue>, i: int) -> Option<Seq<char>>
    decreases items.len() - i,
{
    if i < 0 || i >= items.len() {
        None
    } else {
        match instance_legacy_from(items[i], 0) {
            Some(key) => Some("instance "@ + instance_symbol(items[i]) + ": "@ + key),
            None => instances_legacy_from(items, i + 1),
        }
    }
}

/// The description of the first retired timeframe key of a parsed
/// configuration: `[workspace].active_slots`, `[workspace].active_timeframes`,
/// then the per-instance keys of the `[[workspace.instances]]` array.
pub open spec fn legacy_key_failure(root: TomlValue) -> Option<Seq<char>> {
    match table_get(root, "workspace"@) {
        None => None,
        Some(ws) => if table_get(ws, workspace_legacy_key(0)) is Some {
            Some("[workspace]."@ + workspace_legacy_key(0))
        } else if table_get(ws, workspace_legacy_key(1)) is Some {
            Some("[workspace]."@ + workspace_legacy_key(1))
        } else {
            match table_get(ws, "instances"@) {
                Some(TomlValue::Array(items)) => instances_legacy_from(items@, 0),
                _ => None,
            }
        },
    }
}

fn instance_legacy_check(inst: &TomlValue) -> (r: Option<&'static str>)
    ensures
        match r {
            Some(key) => instance_legacy_from(*inst, 0) == Some(key@),
            None => instance_legacy_from(*inst, 0) is None,
        },
{
    let mut k: usize = 0;
    while k < 5
        invariant
            k <= 5,
            instance_legacy_from(*inst, 0) == instance_legacy_from(*inst, k as int),
        decreases 5 - k,
    {
        let key = instance_legacy_key_text(k);
        if toml_get(inst, key).is_some() {
            return Some(key);
        }
        k = k + 1;
    }
    None
}

fn instance_symbol_text<'a>(inst: &'a TomlValue) -> (s: &'a str)
    ensures
        s@ == instance_symbol(*inst),
{
    match toml_get(inst, "symbol") {
        Some(TomlValue::Text(s)) => s.as_str(),
        _ => "<unknown>",
    }
}

/// The verdict on a parsed configuration: the first retired named-slot
/// timeframe key (see [`legacy_key_failure`]) is refused; `Ok` when none
/// is present.
pub fn legacy_key_verdict(root: &TomlValue) -> (r: Result<(), ConfigError>)
    ensures
        match legacy_key_failure(*root) {
            Some(key) => r matches Err(ConfigError::LegacyTimeframeKey { key: k }) && k@ == key,
            None => r is Ok,
        },
{
    let ws = match toml_get(root, "workspace") {
        None => return Ok(()),
        Some(ws) => ws,
    };
    if toml_get(ws, "active_slots").is_some() {
        let mut key = String::from_str("[workspace].");
        key.append("active_slots");
        return Err(ConfigError::LegacyTimeframeKey { key });
    }
    if toml_get(ws, "active_timeframes").is_some() {
        let mut key = String::from_str("[workspace].");
        key.append("active_timeframes");
        return Err(ConfigError::LegacyTimeframeKey { key });
    }
    match toml_get(ws, "instances") {
        Some(TomlValue::Array(items)) => {
            let mut i: usize = 0;
            while i < items.len()
                invariant
                    i <= items@.len(),
                    legacy_key_failure(*root) == instances_legacy_from(items@, 0),
                    instances_legacy_from(items@, 0) == instances_legacy_from(items@, i as int),
                decreases items.len() - i,
            {
                match instance_legacy_check(&items[i]) {
                    Some(legacy) => {
                        let mut key = String::from_str("instance ");
                        key.append(instance_symbol_text(&items[i]));
                        key.append(": ");
                        key.append(legacy);
                        return Err(ConfigError::LegacyTimeframeKey { key });
                    },
                    None => {},
                }
                i = i + 1;
            }
            Ok(())
        },
        _ => Ok(()),
    }
}

/// `toml::Value`, carried unread.
#[verifier::external_type_specification]
#[verifier::external_body]
pub struct ExTomlValue(toml::Value);

/// The document that the `toml` crate parses from a text, as the
/// legacy-key check reads it (`None` when the text is not valid TOML).
pub uninterp spec fn toml_document(text: Seq<char>) -> Option<TomlValue>;

/// A parsed `toml::Value` as the library's tree: tables, arrays and
/// strings one for one, every other scalar as [`TomlValue::Scalar`].
#[verifier::external_body]
fn toml_value_tree(v: &toml::Value) -> TomlValue {
    match v {
        toml::Value::Table(t) => TomlValue::Table(t.iter().map(|(k, v)| (k.clone(), toml_value_tree(v))).collect()),
        toml::Value::Array(a) => TomlValue::Array(a.iter().map(toml_value_tree).collect()),
        toml::Value::String(s) => TomlValue::Text(s.clone()),
        _ => TomlValue::Scalar,
    }
}

/// `toml::from_str::<toml::Value>`: parses a TOML text. Stated only as the
/// named parse of the text ([`toml_document`]); `None` when it does not
/// parse.
#[verifier::external_body]
fn parse_toml(raw: &str) -> (doc: Option<TomlValue>)
    ensures
        doc == toml_document(raw@),
{
    match toml::from_str::<toml::Value>(raw) {
        Ok(v) => Some(toml_value_tree(&v)),
        Err(_) => None,
    }
}

/// Refuses a configuration text that still uses a retired named-slot
/// timeframe key. A text that does not parse passes here: its parse error
/// is reported where the configuration is loaded.
pub fn reject_legacy_timeframe_keys(raw: &str) -> (r: Result<(), ConfigError>)
    ensures
        match toml_document(raw@) {
            None => r is Ok,
            Some(root) => match legacy_key_failure(root) {
                Some(key) => r matches Err(ConfigError::LegacyTimeframeKey { key: k }) && k@ == key,
                None => r is Ok,
            },
        },
{
    match parse_toml(raw) {
        None => Ok(()),
        Some(root) => legacy_key_verdict(&root),
    }
}

// ---------------------------------------------------------------------
// Legacy files
// ---------------------------------------------------------------------

/// The retired configuration files, in check order.
pub open spec fn legacy_file_name(k: int) -> Seq<char> {
    if k == 0 {
        "instances.json"@
    } else if k == 1 {
        "workspaces.json"@
    } else {
        "pairs.json"@
    }
}

fn legacy_file_text(k: usize) -> (t: &'static str)
    requires
        k < 3,
    ensures
        t@ == legacy_file_name(k as int),
{
    if k == 0 {
        "instances.json"
    } else if k == 1 {
        "workspaces.json"
    } else {
        "pairs.json"
    }
}

/// Whether a file-system entry exists at `path`, relative to the working
/// directory (`std::path::Path::exists`). Nothing is stated of the result:
/// it depends on the file system at the time of the call.
#[verifier::external_body]
fn path_exists(path: &str) -> (b: bool) {
    std::path::Path::new(path).exists()
}

/// The first retired file among those found present, from position `k`.
pub open spec fn first_present_from(present: Seq<bool>, k: int) -> Option<int>
    decreases 3 - k,
{
    if k < 0 || k >= 3 {
        None
    } else if present[k] {
        Some(k)
    } else {
        first_present_from(present, k + 1)
    }
}

/// The verdict on the retired files, given which of them are present (in
/// check order): the first present one is refused.
pub fn legacy_file_verdict(present: &Vec<bool>) -> (r: Result<(), ConfigError>)
    requires
        present@.len() == 3,
    ensures
        match first_present_from(present@, 0) {
            Some(k) => r matches Err(ConfigError::LegacyFile { path }) && path@ == legacy_file_name(k),
            None => r is Ok,
        },
{
    let mut k: usize = 0;
    while k < 3
        invariant
            k <= 3,
            present@.len() == 3,
            first_present_from(present@, 0) == first_present_from(present@, k as int),
        decreases 3 - k,
    {
        if present[k] {
            return Err(ConfigError::LegacyFile { path: String::from_str(legacy_file_text(k)) });
        }
        k = k + 1;
    }
    Ok(())
}

/// Refuses to start while a retired configuration file
/// (`instances.json`, `workspaces.json`, `pairs.json`) is present in the
/// working directory. Whatever the file system holds, the result is `Ok`
/// or names one of those files.
pub fn assert_no_legacy_files() -> (r: Result<(), ConfigError>)
    ensures
        r matches Err(e) ==> (e matches ConfigError::LegacyFile { path } && (path@ == legacy_file_name(0)
            || path@ == legacy_file_name(1) || path@ == legacy_file_name(2))),
{
    let mut present: Vec<bool> = Vec::new();
    let mut found_any = false;
    let mut k: usize = 0;
    while k < 3
        invariant
            k <= 3,
            present@.len() == k,
        decreases 3 - k,
    {
        let found = if found_any {
            false
        } else {
            path_exists(legacy_file_text(k))
        };
        if found {
            found_any = true;
        }
        present.push(found);
        k = k + 1;
    }
    proof {
        lemma_first_present_in_range(present@, 0);
    }
    legacy_file_verdict(&present)
}

proof fn lemma_first_present_in_range(present: Seq<bool>, k: int)
    ensures
        first_present_from(present, k) matches Some(i) ==> 0 <= i < 3,
    decreases 3 - k,
{
    if 0 <= k < 3 && !present[k] {
        lemma_first_present_in_range(present, k + 1);
    }
}

} // verus!
