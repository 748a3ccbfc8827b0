//! A table of configuration values keyed by name.
use vstd::prelude::*;

use crate::error::{ConfigErr, ConfigError, str_result};
use crate::text::{owned, str_equal};
use crate::toml::{
    Entries, TomlNode, TomlValue, entries_insert, entries_remove, keys_distinct, node_of, toml_entries,
    toml_table_get, toml_table_insert, toml_table_is_empty, toml_table_new, toml_table_remove,
    value_models, visible_keys,
};

verus! {

/// The string a configuration value reads as: strings as they are, booleans as
/// `true`/`false`.
pub open spec fn string_value(es: Entries, key: Seq<char>) -> Result<Seq<char>, ConfigErr> {
    match node_of(es, key) {
        TomlNode::Str(s) => Ok(s),
        TomlNode::Bool(b) => Ok(if b { "true"@ } else { "false"@ }),
        TomlNode::Empty => Err(ConfigErr::KeyNotFound(key)),
        _ => Err(ConfigErr::NotAString(key)),
    }
}

/// The boolean a configuration value reads as; an absent key reads as `false`.
pub open spec fn bool_value(es: Entries, key: Seq<char>) -> Result<bool, ConfigErr> {
    match node_of(es, key) {
        TomlNode::Bool(b) => Ok(b),
        TomlNode::Empty => Ok(false),
        _ => Err(ConfigErr::NotABool(key)),
    }
}

/// How a string handed to the configuration is stored: `true` and `false` as
/// booleans, anything else as a string.
pub open spec fn stored_node(value: Seq<char>) -> TomlNode {
    if value == "true"@ {
        TomlNode::Bool(true)
    } else if value == "false"@ {
        TomlNode::Bool(false)
    } else {
        TomlNode::Str(value)
    }
}

/// A configuration table.
pub struct ConfigMap {
    pub root: toml_edit::Table,
}

impl ConfigMap {
    pub open spec fn entries(&self) -> Entries {
        toml_entries(self.root)
    }

    /// The table is well formed: its keys are distinct.
    pub open spec fn wf(&self) -> bool {
        keys_distinct(self.entries())
    }

    /// An empty configuration table.
    pub fn new() -> (m: ConfigMap)
        ensures
            m.wf(),
            m.entries() == Seq::<(Seq<char>, TomlNode)>::empty(),
    {
        ConfigMap { root: toml_table_new() }
    }

    /// Whether the table holds no entry.
    pub fn is_empty(&self) -> (r: bool)
        ensures
            r == (visible_keys(self.entries()).len() == 0),
    {
        toml_table_is_empty(&self.root)
    }

    /// The item under `key`, an error when there is none.
    pub fn find_entry(&self, key: &str) -> (r: Result<TomlValue, ConfigError>)
        requires
            self.wf(),
        ensures
            match r {
                Ok(v) => value_models(v, node_of(self.entries(), key@)) && !(v is Missing),
                Err(e) => node_of(self.entries(), key@) is Empty && e@ == ConfigErr::KeyNotFound(key@),
            },
    {
        match toml_table_get(&self.root, key) {
            TomlValue::Missing => Err(ConfigError::KeyNotFound(owned(key))),
            v => Ok(v),
        }
    }

    /// The value under `key` as a string.
    pub fn get_string_value(&self, key: &str) -> (r: Result<String, ConfigError>)
        requires
            self.wf(),
        ensures
            str_result(r) == string_value(self.entries(), key@),
    {
        match toml_table_get(&self.root, key) {
            TomlValue::Str(s) => Ok(s),
            TomlValue::Bool(b) => {
                if b {
                    Ok(owned("true"))
                } else {
                    Ok(owned("false"))
                }
            },
            TomlValue::Missing => Err(ConfigError::KeyNotFound(owned(key))),
            _ => Err(ConfigError::NotAString(owned(key))),
        }
    }

    /// The value under `key` as a boolean; `false` when the key is absent.
    pub fn get_bool_value(&self, key: &str) -> (r: Result<bool, ConfigError>)
        requires
            self.wf(),
        ensures
            match r {
                Ok(b) => bool_value(self.entries(), key@) == Ok::<bool, ConfigErr>(b),
                Err(e) => bool_value(self.entries(), key@) == Err::<bool, ConfigErr>(e@),
            },
    {
        match toml_table_get(&self.root, key) {
            TomlValue::Bool(b) => Ok(b),
            TomlValue::Missing => Ok(false),
            _ => Err(ConfigError::NotABool(owned(key))),
        }
    }

    /// Stores `value` under `key` (as a boolean when it reads `true` or `false`).
    pub fn set_string_value(&mut self, key: &str, value: &str)
        requires
            old(self).wf(),
        ensures
            final(self).wf(),
            final(self).entries() == entries_insert(old(self).entries(), key@, stored_node(value@)),
    {
        if str_equal(value, "true") {
            toml_table_insert(&mut self.root, key, TomlValue::Bool(true));
        } else if str_equal(value, "false") {
            toml_table_insert(&mut self.root, key, TomlValue::Bool(false));
        } else {
            toml_table_insert(&mut self.root, key, TomlValue::Str(owned(value)));
        }
    }

    /// Drops the entry under `key`.
    pub fn remove_entry(&mut self, key: &str)
        requires
            old(self).wf(),
        ensures
            final(self).wf(),
            final(self).entries() == entries_remove(old(self).entries(), key@),
    {
        toml_table_remove(&mut self.root, key);
    }
}

} // verus!
