//! Platform configuration of a provider: TOML values found by name.
use vstd::prelude::*;

use crate::text::same_text;

verus! {

/// `toml::Value`, carried through as it is.
#[verifier::external_type_specification]
#[verifier::external_body]
pub struct ExTomlValue(toml::Value);

/// `toml::map::Map`, the table type of `toml`, carried through as it is.
#[verifier::external_type_specification]
#[verifier::external_body]
#[verifier::reject_recursive_types(K)]
#[verifier::reject_recursive_types(V)]
pub struct ExTomlMap<K, V>(toml::map::Map<K, V>);

/// What a TOML value is, as far as the configuration is read.
pub ghost enum TomlModel {
    Text(Seq<char>),
    Table(Map<Seq<char>, TomlModel>),
    Other,
}

/// The contents of a TOML value.
pub uninterp spec fn toml_value(value: toml::Value) -> TomlModel;

/// The contents of a TOML table.
pub uninterp spec fn toml_table(table: toml::map::Map<std::string::String, toml::Value>) -> Map<
    Seq<char>,
    TomlModel,
>;

/// `toml::Value::as_table` gives the table of a value that is one, and nothing
/// for any other value.
pub assume_specification[ toml::Value::as_table ](value: &toml::Value) -> (res: Option<
    &toml::map::Map<std::string::String, toml::Value>,
>)
    ensures
        match toml_value(*value) {
            TomlModel::Table(entries) => res is Some && toml_table(*res->0) == entries,
            _ => res is None,
        },
;

/// `toml::Value::as_str` gives the text of a value that is a string, and
/// nothing for any other value.
pub assume_specification[ toml::Value::as_str ](value: &toml::Value) -> (res: Option<&str>)
    ensures
        match toml_value(*value) {
            TomlModel::Text(text) => res is Some && res->0@ == text,
            _ => res is None,
        },
;

/// `toml::map::Map::get` gives the value under a key, and nothing for a key
/// that the table does not have.
#[verifier::external_body]
fn table_get<'a>(
    table: &'a toml::map::Map<std::string::String, toml::Value>,
    key: &str,
) -> (res: Option<&'a toml::Value>)
    ensures
        match res {
            Some(value) => toml_table(*table).contains_key(key@) && toml_value(*value)
                == toml_table(*table)[key@],
            None => !toml_table(*table).contains_key(key@),
        },
{
    table.get(key)
}

/// No name stands twice in a list of named values: the list is a map.
pub open spec fn distinct_names(config: Seq<(String, toml::Value)>) -> bool {
    forall|j: int, k: int|
        0 <= j < k < config.len() ==> (#[trigger] config[j]).0@ != (#[trigger] config[k]).0@
}

/// The value under `key` in a list of named values; the first one, where a
/// name stands twice.
pub open spec fn config_entry(config: Seq<(String, toml::Value)>, key: Seq<char>) -> Option<
    toml::Value,
>
    decreases config.len(),
{
    if config.len() == 0 {
        None
    } else if config[0].0@ == key {
        Some(config[0].1)
    } else {
        config_entry(config.drop_first(), key)
    }
}

/// The text under `key` in `value`, where `value` is a table that holds a
/// string there.
pub open spec fn table_text(value: TomlModel, key: Seq<char>) -> Option<Seq<char>> {
    match value {
        TomlModel::Table(entries) => if entries.contains_key(key) {
            match entries[key] {
                TomlModel::Text(text) => Some(text),
                _ => None,
            }
        } else {
            None
        },
        _ => None,
    }
}

/// Looks up a named value.
pub fn find_entry<'a>(config: &'a Vec<(String, toml::Value)>, key: &str) -> (res: Option<
    &'a toml::Value,
>)
    ensures
        match res {
            Some(value) => config_entry(config@, key@) == Some(*value),
            None => config_entry(config@, key@) is None,
        },
{
    let mut i: usize = 0;
    assert(config@.skip(0) =~= config@);
    while i < config.len()
        invariant
            i <= config@.len(),
            config_entry(config@, key@) == config_entry(config@.skip(i as int), key@),
        decreases config@.len() - i,
    {
        assert(config@.skip(i as int).drop_first() =~= config@.skip(i + 1));
        if same_text(config[i].0.as_str(), key) {
            return Some(&config[i].1);
        }
        i += 1;
    }
    None
}

/// Reads the string under `key` of a value that is a table.
pub fn read_table_text<'a>(value: &'a toml::Value, key: &str) -> (res: Option<&'a str>)
    ensures
        match res {
            Some(text) => table_text(toml_value(*value), key@) == Some(text@),
            None => table_text(toml_value(*value), key@) is None,
        },
{
    match value.as_table() {
        Some(table) => match table_get(table, key) {
            Some(entry) => entry.as_str(),
            None => None,
        },
        None => None,
    }
}

/// Where no name stands twice, the lookup finds each entry under its name.
pub proof fn law_entry_is_found_by_name(config: Seq<(String, toml::Value)>, i: int)
    requires
        0 <= i < config.len(),
        distinct_names(config),
    ensures
        config_entry(config, config[i].0@) == Some(config[i].1),
    decreases config.len(),
{
    if i > 0 {
        assert(config[0].0@ != config[i].0@);
        let rest = config.drop_first();
        assert forall|j: int, k: int| 0 <= j < k < rest.len() implies (#[trigger] rest[j]).0@
            != (#[trigger] rest[k]).0@ by {
            assert(config[j + 1].0@ != config[k + 1].0@);
        }
        assert(rest[i - 1] == config[i]);
        law_entry_is_found_by_name(rest, i - 1);
    }
}

} // verus!
