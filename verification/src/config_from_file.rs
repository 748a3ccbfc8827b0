//! The configuration held in the config and hosts files.
use vstd::prelude::*;

use crate::config::Config;
use crate::config_alias::{AliasConfig, expand_args, words_view};
use crate::config_map::{ConfigMap, bool_value, stored_node, string_value};
use crate::error::{ConfigErr, ConfigError, str_result, unit_result};
use crate::text::{owned, str_equal, trim, trim_ws};
use crate::toml::{other_than, lemma_visible_keys_remove, 
    Entries, TomlNode, TomlValue, entries_insert, entries_remove, keys_distinct, lemma_insert, deep_distinct, lemma_deep_node, lemma_remove, lemma_visible_keys, lemma_visible_push,
    has_key,
    node_of, toml_entries, toml_render, toml_table_clone, toml_table_get, toml_table_insert,
    toml_table_keys, toml_table_remove, toml_table_new, toml_text, visible_keys,
};

verus! {

/// The entries of the table stored under `name`; none when the key is absent.
pub open spec fn table_under(es: Entries, name: Seq<char>) -> Result<Entries, ConfigErr> {
    match node_of(es, name) {
        TomlNode::Empty => Ok(seq![]),
        TomlNode::Table(t) => Ok(t),
        _ => Err(ConfigErr::NotATable(name)),
    }
}

/// The hosts table of a configuration.
pub open spec fn hosts_of(es: Entries) -> Result<Entries, ConfigErr> {
    table_under(es, "hosts"@)
}

/// The aliases table of a configuration.
pub open spec fn aliases_of(es: Entries) -> Result<Entries, ConfigErr> {
    table_under(es, "aliases"@)
}

/// The settings of `host` in the hosts table `h`: `None` when the host is not listed;
/// a listed entry that is not a table has no settings.
pub open spec fn host_entries(h: Entries, host: Seq<char>) -> Option<Entries> {
    match node_of(h, host) {
        TomlNode::Empty => None,
        TomlNode::Table(t) => Some(t),
        _ => Some(seq![]),
    }
}

/// What reading `key` gives: the global value when `hostname` is empty, else the
/// value in that host's settings.
pub open spec fn config_get(es: Entries, hostname: Seq<char>, key: Seq<char>) -> Result<Seq<char>, ConfigErr> {
    if hostname.len() == 0 {
        string_value(es, key)
    } else {
        match hosts_of(es) {
            Err(e) => Err(e),
            Ok(h) => match host_entries(h, hostname) {
                None => Err(ConfigErr::HostNotFound(hostname)),
                Some(s) => string_value(s, key),
            },
        }
    }
}

/// A configuration whose tables (the root, the hosts table and each host's
/// settings) have distinct keys, as every `toml_edit` table does.
pub open spec fn config_valid(es: Entries) -> bool {
    &&& keys_distinct(es)
    &&& (hosts_of(es) matches Ok(h) ==> {
        &&& keys_distinct(h)
        &&& forall|n: Seq<char>| (#[trigger] host_entries(h, n)) is Some ==> keys_distinct(host_entries(h, n).unwrap())
    })
}

/// A configuration whose keys are distinct at every level is valid.
pub proof fn lemma_deep_valid(es: Entries)
    requires
        deep_distinct(es),
    ensures
        config_valid(es),
{
    if let Ok(h) = hosts_of(es) {
        if node_of(es, "hosts"@) is Table {
            lemma_deep_node(es, "hosts"@);
            assert forall|n: Seq<char>| (#[trigger] host_entries(h, n)) is Some implies keys_distinct(host_entries(h, n).unwrap()) by {
                if node_of(h, n) is Table {
                    lemma_deep_node(h, n);
                }
            }
        }
    }
}

/// A root table with a hosts table stored in it, both with distinct keys at every
/// level, makes a valid configuration.
pub proof fn lemma_hosts_valid(root: Entries, hosts: Entries)
    requires
        deep_distinct(root),
        deep_distinct(hosts),
    ensures
        config_valid(entries_insert(root, "hosts"@, TomlNode::Table(hosts))),
{
    lemma_insert(root, "hosts"@, TomlNode::Table(hosts));
    let es = entries_insert(root, "hosts"@, TomlNode::Table(hosts));
    assert(hosts_of(es) == Ok::<Entries, ConfigErr>(hosts));
    assert forall|n: Seq<char>| (#[trigger] host_entries(hosts, n)) is Some implies keys_distinct(host_entries(hosts, n).unwrap()) by {
        if node_of(hosts, n) is Table {
            lemma_deep_node(hosts, n);
        }
    }
}

/// Removing a host keeps a configuration valid.
pub proof fn lemma_unset_keeps_valid(es: Entries, hostname: Seq<char>)
    requires
        config_valid(es),
    ensures
        config_unset_host(es, hostname) matches Ok(es2) ==> config_valid(es2),
{
    if hostname.len() > 0 {
        if let Ok(h) = hosts_of(es) {
            let h2 = entries_remove(h, hostname);
            lemma_remove(h, hostname);
            lemma_insert(es, "hosts"@, TomlNode::Table(h2));
            assert forall|n: Seq<char>| (#[trigger] host_entries(h2, n)) is Some implies keys_distinct(host_entries(h2, n).unwrap()) by {
                assert(n != hostname);
                assert(host_entries(h2, n) == host_entries(h, n));
            }
        }
    }
}

/// Storing a table under a key other than `hosts` keeps a configuration valid.
pub proof fn lemma_insert_keeps_valid(es: Entries, k: Seq<char>, n: TomlNode)
    requires
        config_valid(es),
        k != "hosts"@,
    ensures
        config_valid(entries_insert(es, k, n)),
        hosts_of(entries_insert(es, k, n)) == hosts_of(es),
{
    lemma_insert(es, k, n);
}

/// The hosts table, empty when it cannot be read.
pub open spec fn hosts_table(es: Entries) -> Entries {
    match hosts_of(es) {
        Ok(h) => h,
        Err(_) => seq![],
    }
}

/// A list of hosts that was read and holds `n`.
pub open spec fn hs_contains(hs: Result<Seq<Seq<char>>, ConfigErr>, n: Seq<char>) -> bool {
    match hs {
        Ok(v) => v.contains(n),
        Err(_) => false,
    }
}

/// What the command line `args` expands to under a configuration's aliases.
pub open spec fn config_expand(es: Entries, args: Seq<Seq<char>>) -> Result<(Seq<Seq<char>>, bool), ConfigErr> {
    if args.len() < 2 {
        Ok((seq![], false))
    } else {
        match aliases_of(es) {
            Err(e) => Err(e),
            Ok(a) => expand_args(a, args),
        }
    }
}

/// Where a value read from the configuration comes from.
pub enum ConfigSource {
    /// The config file.
    ConfigFile,
    /// The hosts file.
    HostsFile,
    /// The environment variable of that name.
    EnvVar(String),
}

/// The configuration after setting `key` to `value` (globally, or for `hostname`).
pub open spec fn config_set(es: Entries, hostname: Seq<char>, key: Seq<char>, value: Seq<char>) -> Result<Entries, ConfigErr> {
    if hostname.len() == 0 {
        Ok(entries_insert(es, key, stored_node(value)))
    } else {
        match hosts_of(es) {
            Err(e) => Err(e),
            Ok(h) => {
                let base = match host_entries(h, hostname) {
                    Some(s) => s,
                    None => seq![],
                };
                let host = entries_insert(base, key, stored_node(value));
                Ok(entries_insert(es, "hosts"@, TomlNode::Table(entries_insert(h, hostname, TomlNode::Table(host)))))
            },
        }
    }
}

/// The configuration after removing `hostname` from the hosts table.
pub open spec fn config_unset_host(es: Entries, hostname: Seq<char>) -> Result<Entries, ConfigErr> {
    if hostname.len() == 0 {
        Ok(es)
    } else {
        match hosts_of(es) {
            Err(e) => Err(e),
            Ok(h) => Ok(entries_insert(es, "hosts"@, TomlNode::Table(entries_remove(h, hostname)))),
        }
    }
}

/// The configured hosts, in the order of the hosts table.
pub open spec fn config_hosts(es: Entries) -> Result<Seq<Seq<char>>, ConfigErr> {
    match hosts_of(es) {
        Err(e) => Err(e),
        Ok(h) => Ok(visible_keys(h)),
    }
}

/// The first of `keys` whose settings mark it as the default host.
pub open spec fn first_default(h: Entries, keys: Seq<Seq<char>>) -> Result<Seq<char>, ConfigErr>
    decreases keys.len(),
{
    if keys.len() == 0 {
        Err(ConfigErr::NoDefaultHost)
    } else {
        let s = match host_entries(h, keys[0]) {
            Some(s) => s,
            None => seq![],
        };
        match bool_value(s, "default"@) {
            Err(e) => Err(e),
            Ok(true) => Ok(keys[0]),
            Ok(false) => first_default(h, keys.skip(1)),
        }
    }
}

/// The default host: the only host when there is one, else the first one marked
/// `default = true`.
pub open spec fn config_default_host(es: Entries) -> Result<Seq<char>, ConfigErr> {
    match hosts_of(es) {
        Err(e) => Err(e),
        Ok(h) => {
            let ks = visible_keys(h);
            if ks.len() == 0 {
                Err(ConfigErr::NoHosts)
            } else if ks.len() == 1 {
                Ok(ks[0])
            } else {
                first_default(h, ks)
            }
        },
    }
}


/// The settings of one host.
pub struct HostConfig {
    pub map: ConfigMap,
    pub host: String,
}

/// A configuration read from the config file and the hosts file.
pub struct FileConfig {
    pub map: ConfigMap,
}

impl FileConfig {
    /// Sets `key` to `value` in the stored tables.
    fn set_entries(&mut self, hostname: &str, key: &str, value: &str) -> (r: Result<(), ConfigError>)
        requires
            old(self).wf(),
        ensures
            final(self).wf(),
            match config_set(old(self).entries(), hostname@, key@, value@) {
                Ok(es) => r is Ok && final(self).entries() == es,
                Err(e) => unit_result(r) == Err::<(), ConfigErr>(e) && final(self).entries() == old(self).entries(),
            },
            r is Err ==> *final(self) == *old(self),
    {
        proof {
            law_set_keeps_valid(self.entries(), hostname@, key@, value@);
        }
        if hostname.unicode_len() == 0 {
            self.map.set_string_value(key, value);
            return Ok(());
        }
        let mut host_config = match self.get_host_config(hostname) {
            Ok(hc) => hc,
            Err(_) => self.make_host_config(hostname)?,
        };
        host_config.map.set_string_value(key, value);
        let mut hosts_table = self.get_hosts_table()?;
        toml_table_insert(&mut hosts_table, hostname, TomlValue::Table(host_config.map.root));
        toml_table_insert(&mut self.map.root, "hosts", TomlValue::Table(hosts_table));
        Ok(())
    }

    pub open spec fn entries(&self) -> Entries {
        self.map.entries()
    }

    pub open spec fn wf(&self) -> bool {
        &&& self.map.wf()
        &&& config_valid(self.entries())
    }

    /// The table stored under `name`, an empty one when the key is absent.
    fn get_named_table(&self, name: &str) -> (r: Result<toml_edit::Table, ConfigError>)
        requires
            self.wf(),
        ensures
            match r {
                Ok(t) => table_under(self.entries(), name@) == Ok::<Entries, ConfigErr>(toml_entries(t))
                    && keys_distinct(toml_entries(t)),
                Err(e) => table_under(self.entries(), name@) == Err::<Entries, ConfigErr>(e@),
            },
    {
        match self.map.find_entry(name) {
            Ok(TomlValue::Table(t)) => Ok(t),
            Ok(_) => Err(ConfigError::NotATable(owned(name))),
            Err(_) => Ok(toml_table_new()),
        }
    }

    fn get_hosts_table(&self) -> (r: Result<toml_edit::Table, ConfigError>)
        requires
            self.wf(),
        ensures
            match r {
                Ok(t) => hosts_of(self.entries()) == Ok::<Entries, ConfigErr>(toml_entries(t))
                    && keys_distinct(toml_entries(t)),
                Err(e) => hosts_of(self.entries()) == Err::<Entries, ConfigErr>(e@),
            },
    {
        self.get_named_table("hosts")
    }

    pub(crate) fn get_aliases_table(&self) -> (r: Result<toml_edit::Table, ConfigError>)
        requires
            self.wf(),
        ensures
            match r {
                Ok(t) => aliases_of(self.entries()) == Ok::<Entries, ConfigErr>(toml_entries(t))
                    && keys_distinct(toml_entries(t)),
                Err(e) => aliases_of(self.entries()) == Err::<Entries, ConfigErr>(e@),
            },
    {
        self.get_named_table("aliases")
    }

    /// One `HostConfig` per host, in the order of the hosts table.
    fn get_host_entries(&self) -> (r: Result<Vec<HostConfig>, ConfigError>)
        requires
            self.wf(),
        ensures
            match r {
                Ok(v) => exists|h: Entries| {
                    &&& hosts_of(self.entries()) == Ok::<Entries, ConfigErr>(h)
                    &&& keys_distinct(h)
                    &&& v@.len() == visible_keys(h).len()
                    &&& forall|i: int| 0 <= i < v@.len() ==> {
                        &&& (#[trigger] v@[i]).host@ == visible_keys(h)[i]
                        &&& v@[i].map.wf()
                        &&& host_entries(h, visible_keys(h)[i]) == Some(v@[i].map.entries())
                    }
                },
                Err(e) => hosts_of(self.entries()) == Err::<Entries, ConfigErr>(e@),
            },
    {
        let hosts_table = self.get_hosts_table()?;
        let ghost h = toml_entries(hosts_table);
        let keys = toml_table_keys(&hosts_table);
        let mut host_configs: Vec<HostConfig> = Vec::new();
        let mut i: usize = 0;
        while i < keys.len()
            invariant
                hosts_of(self.entries()) == Ok::<Entries, ConfigErr>(h),
                h == toml_entries(hosts_table),
                keys_distinct(h),
                keys@.len() == visible_keys(h).len(),
                forall|j: int| 0 <= j < keys@.len() ==> #[trigger] keys@[j]@ == visible_keys(h)[j],
                i <= keys@.len(),
                host_configs@.len() == i,
                forall|j: int| 0 <= j < i ==> {
                    &&& (#[trigger] host_configs@[j]).host@ == visible_keys(h)[j]
                    &&& host_configs@[j].map.wf()
                    &&& host_entries(h, visible_keys(h)[j]) == Some(host_configs@[j].map.entries())
                },
            decreases keys@.len() - i,
        {
            let host = &keys[i];
            assert(host@ == visible_keys(h)[i as int]);
            proof {
                assert(visible_keys(h).contains(host@));
                lemma_visible_keys(h, host@);
            }
            let table = match toml_table_get(&hosts_table, host.as_str()) {
                TomlValue::Table(t) => t,
                _ => toml_table_new(),
            };
            assert(keys_distinct(toml_entries(table)));
            let hc = HostConfig { map: ConfigMap { root: table }, host: owned(host.as_str()) };
            host_configs.push(hc);
            i = i + 1;
        }
        Ok(host_configs)
    }

    /// The settings of `hostname`.
    pub fn get_host_config(&self, hostname: &str) -> (r: Result<HostConfig, ConfigError>)
        requires
            self.wf(),
        ensures
            match r {
                Ok(hc) => hc.host@ == hostname@ && hc.map.wf() && exists|h: Entries|
                    hosts_of(self.entries()) == Ok::<Entries, ConfigErr>(h) && host_entries(h, hostname@) == Some(
                        hc.map.entries(),
                    ),
                Err(e) => match hosts_of(self.entries()) {
                    Err(he) => e@ == he,
                    Ok(h) => host_entries(h, hostname@) is None && e@ == ConfigErr::HostNotFound(hostname@),
                },
            },
    {
        let host_configs = self.get_host_entries()?;
        let ghost h = choose|h: Entries| {
            &&& hosts_of(self.entries()) == Ok::<Entries, ConfigErr>(h)
            &&& keys_distinct(h)
            &&& host_configs@.len() == visible_keys(h).len()
            &&& forall|i: int| 0 <= i < host_configs@.len() ==> {
                &&& (#[trigger] host_configs@[i]).host@ == visible_keys(h)[i]
                &&& host_configs@[i].map.wf()
                &&& host_entries(h, visible_keys(h)[i]) == Some(host_configs@[i].map.entries())
            }
        };
        let mut host_configs = host_configs;
        let n = host_configs.len();
        let mut i: usize = 0;
        while i < n
            invariant
                hosts_of(self.entries()) == Ok::<Entries, ConfigErr>(h),
                keys_distinct(h),
                n == visible_keys(h).len(),
                i <= n,
                host_configs@.len() == n,
                forall|j: int| 0 <= j < n ==> {
                    &&& (#[trigger] host_configs@[j]).host@ == visible_keys(h)[j]
                    &&& host_configs@[j].map.wf()
                    &&& host_entries(h, visible_keys(h)[j]) == Some(host_configs@[j].map.entries())
                },
                forall|j: int| 0 <= j < i ==> visible_keys(h)[j] != hostname@,
            decreases n - i,
        {
            if str_equal(host_configs[i].host.as_str(), hostname) {
                let hc = host_configs.remove(i);
                return Ok(hc);
            }
            i = i + 1;
        }
        proof {
            lemma_visible_keys(h, hostname@);
        }
        Err(ConfigError::HostNotFound(owned(hostname)))
    }

    /// A fresh, empty set of settings for `hostname`; fails when the hosts table cannot be read.
    fn make_host_config(&self, hostname: &str) -> (r: Result<HostConfig, ConfigError>)
        requires
            self.wf(),
        ensures
            match r {
                Ok(hc) => hosts_of(self.entries()) is Ok && hc.host@ == hostname@ && hc.map.wf()
                    && hc.map.entries() == Seq::<(Seq<char>, TomlNode)>::empty(),
                Err(e) => hosts_of(self.entries()) == Err::<Entries, ConfigErr>(e@),
            },
    {
        let _hosts_table = self.get_hosts_table()?;
        Ok(HostConfig { map: ConfigMap::new(), host: owned(hostname) })
    }
}

impl Config for FileConfig {
    open spec fn valid(&self) -> bool {
        self.wf()
    }

    open spec fn spec_get(&self, hostname: Seq<char>, key: Seq<char>) -> Result<Seq<char>, ConfigErr> {
        config_get(self.entries(), hostname, key)
    }

    open spec fn spec_default_host(&self) -> Result<Seq<char>, ConfigErr> {
        config_default_host(self.entries())
    }

    open spec fn spec_hosts(&self) -> Result<Seq<Seq<char>>, ConfigErr> {
        config_hosts(self.entries())
    }

    open spec fn spec_check_writable(&self, hostname: Seq<char>, key: Seq<char>) -> Result<(), ConfigErr> {
        Ok(())
    }

    open spec fn renders_config(&self, text: Seq<char>) -> bool {
        exists|t: toml_edit::Table| toml_entries(t) == entries_remove(self.entries(), "hosts"@) && text == trim_ws(toml_text(t))
    }

    open spec fn renders_hosts(&self, text: Seq<char>) -> bool {
        exists|t: toml_edit::Table| hosts_of(self.entries()) == Ok::<Entries, ConfigErr>(toml_entries(t))
            && text == trim_ws(toml_text(t))
    }

    open spec fn spec_override(&self, key: Seq<char>) -> Seq<char> {
        Seq::empty()
    }

    open spec fn spec_unset_host(&self, hostname: Seq<char>) -> Result<(), ConfigErr> {
        match config_unset_host(self.entries(), hostname) {
            Ok(_) => Ok(()),
            Err(e) => Err(e),
        }
    }

    open spec fn spec_expand_alias(&self, args: Seq<Seq<char>>) -> Result<(Seq<Seq<char>>, bool), ConfigErr> {
        config_expand(self.entries(), args)
    }

    open spec fn spec_set(&self, hostname: Seq<char>, key: Seq<char>, value: Seq<char>) -> Result<(), ConfigErr> {
        match config_set(self.entries(), hostname, key, value) {
            Ok(_) => Ok(()),
            Err(e) => Err(e),
        }
    }

    /// The value of `key`: global when `hostname` is empty, else that host's.
    fn get(&self, hostname: &str, key: &str) -> (r: Result<String, ConfigError>)
        ensures
            str_result(r) == config_get(self.entries(), hostname@, key@),
    {
        match self.get_with_source(hostname, key) {
            Ok((v, _)) => Ok(v),
            Err(e) => Err(e),
        }
    }

    /// The value of `key` and the file it comes from: the config file for global
    /// values, the hosts file for a host's.
    fn get_with_source(&self, hostname: &str, key: &str) -> (r: Result<(String, ConfigSource), ConfigError>)
        ensures
            match r {
                Ok((v, src)) => config_get(self.entries(), hostname@, key@) == Ok::<Seq<char>, ConfigErr>(v@)
                    && (if hostname@.len() == 0 { src is ConfigFile } else { src is HostsFile }),
                Err(e) => config_get(self.entries(), hostname@, key@) == Err::<Seq<char>, ConfigErr>(e@),
            },
    {
        if hostname.unicode_len() == 0 {
            let value = self.map.get_string_value(key)?;
            return Ok((value, ConfigSource::ConfigFile));
        }
        let host_config = self.get_host_config(hostname)?;
        let value = host_config.map.get_string_value(key)?;
        Ok((value, ConfigSource::HostsFile))
    }

    /// Sets `key` to `value`, globally when `hostname` is empty, else for that host
    /// (adding the host when it is new).
    fn set(&mut self, hostname: &str, key: &str, value: &str) -> (r: Result<(), ConfigError>)
        ensures
            final(self).wf(),
            match config_set(old(self).entries(), hostname@, key@, value@) {
                Ok(es) => r is Ok && final(self).entries() == es,
                Err(e) => unit_result(r) == Err::<(), ConfigErr>(e) && final(self).entries() == old(self).entries(),
            },
    {
        proof {
            let es = self.entries();
            law_set_then_get(es, hostname@, key@, value@);
            assert forall|h: Seq<char>, k: Seq<char>|
                crate::config::set_leaves(hostname@, key@, h, k) && config_get(es, h, k) != Err::<Seq<char>, ConfigErr>(
                    ConfigErr::HostNotFound(h),
                ) implies (config_set(es, hostname@, key@, value@) matches Ok(es2) ==> config_get(es2, h, k) == config_get(
                es,
                h,
                k,
            )) by {
                if h == hostname@ && hostname@.len() > 0 {
                    if hosts_of(es) is Ok {
                        assert(host_entries(hosts_table(es), hostname@) is Some);
                        law_set_keeps_others(es, hostname@, key@, value@, h, k);
                    }
                } else {
                    law_set_keeps_others(es, hostname@, key@, value@, h, k);
                }
            }
        }
        self.set_entries(hostname, key, value)
    }

    /// Removes `hostname` from the hosts table; an empty name changes nothing.
    fn unset_host(&mut self, hostname: &str) -> (r: Result<(), ConfigError>)
        ensures
            final(self).wf(),
            match config_unset_host(old(self).entries(), hostname@) {
                Ok(es) => r is Ok && final(self).entries() == es,
                Err(e) => unit_result(r) == Err::<(), ConfigErr>(e) && final(self).entries() == old(self).entries(),
            },
    {
        proof {
            lemma_unset_keeps_valid(self.entries(), hostname@);
            if hostname@.len() > 0 {
                law_unset_host(self.entries(), hostname@, hostname@);
                lemma_unset_keeps(self.entries(), hostname@);
            }
        }
        if hostname.unicode_len() == 0 {
            return Ok(());
        }
        let mut hosts_table = self.get_hosts_table()?;
        toml_table_remove(&mut hosts_table, hostname);
        toml_table_insert(&mut self.map.root, "hosts", TomlValue::Table(hosts_table));
        Ok(())
    }

    /// The configured hosts, in the order of the hosts table.
    fn hosts(&self) -> (r: Result<Vec<String>, ConfigError>)
        ensures
            match r {
                Ok(v) => config_hosts(self.entries()) == Ok::<Seq<Seq<char>>, ConfigErr>(crate::config::strings_view(v@)),
                Err(e) => config_hosts(self.entries()) == Err::<Seq<Seq<char>>, ConfigErr>(e@),
            },
    {
        let hosts_table = self.get_hosts_table()?;
        let keys = toml_table_keys(&hosts_table);
        assert(crate::config::strings_view(keys@) =~= visible_keys(toml_entries(hosts_table)));
        Ok(keys)
    }

    /// The default host.
    fn default_host(&self) -> (r: Result<String, ConfigError>)
        ensures
            str_result(r) == config_default_host(self.entries()),
    {
        match self.default_host_with_source() {
            Ok((h, _)) => Ok(h),
            Err(e) => Err(e),
        }
    }

    /// The default host, which the hosts file provides.
    fn default_host_with_source(&self) -> (r: Result<(String, ConfigSource), ConfigError>)
        ensures
            match r {
                Ok((h, src)) => config_default_host(self.entries()) == Ok::<Seq<char>, ConfigErr>(h@) && src is HostsFile,
                Err(e) => config_default_host(self.entries()) == Err::<Seq<char>, ConfigErr>(e@),
            },
    {
        let hosts = self.hosts()?;
        if hosts.len() == 0 {
            return Err(ConfigError::NoHosts);
        }
        if hosts.len() == 1 {
            return Ok((owned(hosts[0].as_str()), ConfigSource::HostsFile));
        }
        let host_configs = self.get_host_entries()?;
        let ghost h = choose|h: Entries| {
            &&& hosts_of(self.entries()) == Ok::<Entries, ConfigErr>(h)
            &&& keys_distinct(h)
            &&& host_configs@.len() == visible_keys(h).len()
            &&& forall|i: int| 0 <= i < host_configs@.len() ==> {
                &&& (#[trigger] host_configs@[i]).host@ == visible_keys(h)[i]
                &&& host_configs@[i].map.wf()
                &&& host_entries(h, visible_keys(h)[i]) == Some(host_configs@[i].map.entries())
            }
        };
        let ghost ks = visible_keys(h);
        let n = host_configs.len();
        let mut i: usize = 0;
        assert(ks.skip(0) =~= ks);
        while i < n
            invariant
                n == ks.len(),
                ks == visible_keys(h),
                ks.len() > 1,
                config_default_host(self.entries()) == first_default(h, ks.skip(i as int)),
                host_configs@.len() == n,
                forall|j: int| 0 <= j < n ==> {
                    &&& (#[trigger] host_configs@[j]).host@ == ks[j]
                    &&& host_configs@[j].map.wf()
                    &&& host_entries(h, ks[j]) == Some(host_configs@[j].map.entries())
                },
                i <= n,
            decreases n - i,
        {
            assert(ks.skip(i as int)[0] == ks[i as int]);
            assert(ks.skip(i as int).skip(1) =~= ks.skip(i + 1));
            let hc = &host_configs[i];
            if hc.map.get_bool_value("default")? {
                return Ok((owned(hc.host.as_str()), ConfigSource::HostsFile));
            }
            i = i + 1;
        }
        Err(ConfigError::NoDefaultHost)
    }

    /// Whether the configuration may be changed; a file configuration always may.
    fn check_writable(&self, _hostname: &str, _key: &str) -> (r: Result<(), ConfigError>)
        ensures
            r is Ok,
    {
        Ok(())
    }

    /// The text of the config file: the configuration without its hosts table,
    /// rendered by `toml_edit` and trimmed.
    fn config_to_string(&self) -> (r: Result<String, ConfigError>)
        ensures
            r matches Ok(text) && exists|t: toml_edit::Table| toml_entries(t) == entries_remove(self.entries(), "hosts"@)
                && text@ == trim_ws(toml_text(t)),
    {
        let mut map = ConfigMap { root: toml_table_clone(&self.map.root) };
        map.remove_entry("hosts");
        let text = toml_render(&map.root);
        Ok(trim(text.as_str()))
    }

    /// The text of the hosts file: the hosts table rendered by `toml_edit` and trimmed.
    fn hosts_to_string(&self) -> (r: Result<String, ConfigError>)
        ensures
            match r {
                Ok(text) => exists|t: toml_edit::Table| hosts_of(self.entries()) == Ok::<Entries, ConfigErr>(toml_entries(t))
                    && text@ == trim_ws(toml_text(t)),
                Err(e) => hosts_of(self.entries()) == Err::<Entries, ConfigErr>(e@),
            },
    {
        let hosts_table = self.get_hosts_table()?;
        let text = toml_render(&hosts_table);
        Ok(trim(text.as_str()))
    }

    fn aliases(&self) -> (r: Result<AliasConfig, ConfigError>)
        ensures
            match r {
                Ok(a) => a.wf() && aliases_of(self.entries()) == Ok::<Entries, ConfigErr>(a.entries()),
                Err(e) => aliases_of(self.entries()) == Err::<Entries, ConfigErr>(e@),
            },
    {
        let aliases_table = self.get_aliases_table()?;
        Ok(AliasConfig { map: ConfigMap { root: aliases_table } })
    }

    fn save_aliases(&mut self, aliases: &ConfigMap) -> (r: Result<(), ConfigError>)
        ensures
            r is Ok,
            final(self).entries() == entries_insert(old(self).entries(), "aliases"@, TomlNode::Table(aliases.entries())),
    {
        proof {
            reveal_strlit("aliases");
            reveal_strlit("hosts");
            assert("aliases"@.len() != "hosts"@.len());
            lemma_insert_keeps_valid(self.entries(), "aliases"@, TomlNode::Table(aliases.entries()));
        }
        let t = toml_table_clone(&aliases.root);
        toml_table_insert(&mut self.map.root, "aliases", TomlValue::Table(t));
        Ok(())
    }

    fn expand_alias(&self, args: Vec<String>) -> (r: Result<(Vec<String>, bool), ConfigError>)
        ensures
            match r {
                Ok((v, shell)) => config_expand(self.entries(), words_view(args@)) == Ok::<(Seq<Seq<char>>, bool), ConfigErr>(
                    (words_view(v@), shell),
                ),
                Err(e) => config_expand(self.entries(), words_view(args@)) == Err::<(Seq<Seq<char>>, bool), ConfigErr>(e@),
            },
    {
        if args.len() < 2 {
            let v: Vec<String> = Vec::new();
            assert(words_view(v@) =~= seq![]);
            return Ok((v, false));
        }
        let aliases = self.aliases()?;
        let r = aliases.expand(&args);
        assert(r matches Ok((v, shell)) ==> words_view(v@).len() == v@.len());
        r
    }
}


/// Reading a key right after setting it, for the same host (or globally), gives
/// back the value that was set.
pub proof fn law_set_then_get(es: Entries, hostname: Seq<char>, key: Seq<char>, value: Seq<char>)
    requires
        config_valid(es),
    ensures
        config_set(es, hostname, key, value) matches Ok(es2) ==> config_get(es2, hostname, key) == Ok::<Seq<char>, ConfigErr>(value),
{
    if hostname.len() == 0 {
        lemma_insert(es, key, stored_node(value));
    } else if let Ok(h) = hosts_of(es) {
        let base = match host_entries(h, hostname) {
            Some(s) => s,
            None => seq![],
        };
        assert(keys_distinct(base));
        let host = entries_insert(base, key, stored_node(value));
        lemma_insert(base, key, stored_node(value));
        let h2 = entries_insert(h, hostname, TomlNode::Table(host));
        lemma_insert(h, hostname, TomlNode::Table(host));
        lemma_insert(es, "hosts"@, TomlNode::Table(h2));
    }
}

/// Setting one key leaves every other value as it was. Left out: a global set of
/// the key `hosts`, which replaces the hosts table, and reads of a host that the
/// set adds (they failed before, as the host was unknown).
pub proof fn law_set_keeps_others(
    es: Entries,
    hostname: Seq<char>,
    key: Seq<char>,
    value: Seq<char>,
    other_host: Seq<char>,
    other_key: Seq<char>,
)
    requires
        config_valid(es),
        !(hostname.len() == 0 && key == "hosts"@),
        !(other_host.len() == 0 && other_key == "hosts"@),
        other_host != hostname || other_key != key,
        other_host != hostname || hostname.len() == 0 || host_entries(hosts_table(es), hostname) is Some,
    ensures
        config_set(es, hostname, key, value) matches Ok(es2) ==> config_get(es2, other_host, other_key) == config_get(
            es,
            other_host,
            other_key,
        ),
{
    if hostname.len() == 0 {
        lemma_insert(es, key, stored_node(value));
        let es2 = entries_insert(es, key, stored_node(value));
        assert(node_of(es2, "hosts"@) == node_of(es, "hosts"@));
        assert(hosts_of(es2) == hosts_of(es));
        if other_host.len() == 0 {
            assert(other_host =~= hostname);
            assert(node_of(es2, other_key) == node_of(es, other_key));
        }
        assert(config_get(es2, other_host, other_key) == config_get(es, other_host, other_key));
    } else if let Ok(h) = hosts_of(es) {
        let base = match host_entries(h, hostname) {
            Some(s) => s,
            None => seq![],
        };
        assert(keys_distinct(base));
        let host = entries_insert(base, key, stored_node(value));
        lemma_insert(base, key, stored_node(value));
        let h2 = entries_insert(h, hostname, TomlNode::Table(host));
        lemma_insert(h, hostname, TomlNode::Table(host));
        lemma_insert(es, "hosts"@, TomlNode::Table(h2));
        assert(hosts_of(entries_insert(es, "hosts"@, TomlNode::Table(h2))) == Ok::<Entries, ConfigErr>(h2));
        let es2 = entries_insert(es, "hosts"@, TomlNode::Table(h2));
        if other_host.len() == 0 {
            assert(node_of(es2, other_key) == node_of(es, other_key));
            assert(config_get(es2, other_host, other_key) == config_get(es, other_host, other_key));
        } else if other_host != hostname {
            assert(host_entries(h2, other_host) == host_entries(h, other_host));
            assert(config_get(es2, other_host, other_key) == config_get(es, other_host, other_key));
        } else {
            assert(host_entries(h, hostname) == Some(base));
            assert(host_entries(h2, hostname) == Some(host));
            assert(node_of(host, other_key) == node_of(base, other_key));
            assert(config_get(es2, other_host, other_key) == config_get(es, other_host, other_key));
        }
        assert(config_set(es, hostname, key, value) == Ok::<Entries, ConfigErr>(es2));
    } else {
    }
}

/// Every operation that changes a configuration keeps its tables well keyed.
pub proof fn law_set_keeps_valid(es: Entries, hostname: Seq<char>, key: Seq<char>, value: Seq<char>)
    requires
        config_valid(es),
    ensures
        config_set(es, hostname, key, value) matches Ok(es2) ==> config_valid(es2),
{
    if hostname.len() == 0 {
        lemma_insert(es, key, stored_node(value));
        if key != "hosts"@ {
            assert(hosts_of(entries_insert(es, key, stored_node(value))) == hosts_of(es));
        } else {
            assert(hosts_of(entries_insert(es, key, stored_node(value))) is Err);
        }
    } else if let Ok(h) = hosts_of(es) {
        let base = match host_entries(h, hostname) {
            Some(s) => s,
            None => seq![],
        };
        assert(keys_distinct(base));
        let host = entries_insert(base, key, stored_node(value));
        lemma_insert(base, key, stored_node(value));
        let h2 = entries_insert(h, hostname, TomlNode::Table(host));
        lemma_insert(h, hostname, TomlNode::Table(host));
        lemma_insert(es, "hosts"@, TomlNode::Table(h2));
        assert forall|n: Seq<char>| (#[trigger] host_entries(h2, n)) is Some implies keys_distinct(host_entries(h2, n).unwrap()) by {
            if n != hostname {
                assert(host_entries(h2, n) == host_entries(h, n));
            }
        }
    }
}

/// After setting a value for a host, the host is among the configured hosts; a host
/// that had no entry comes last, after the others in their old order.
pub proof fn law_set_adds_host(es: Entries, hostname: Seq<char>, key: Seq<char>, value: Seq<char>)
    requires
        config_valid(es),
        hostname.len() > 0,
    ensures
        config_set(es, hostname, key, value) matches Ok(es2) ==> {
            &&& config_hosts(es2) matches Ok(hs) && hs.contains(hostname)
            &&& (hosts_of(es) is Ok && !has_key(hosts_table(es), hostname) ==> config_hosts(es2) == Ok::<Seq<Seq<char>>, ConfigErr>(
                visible_keys(hosts_table(es)).push(hostname),
            ))
        },
{
    if let Ok(h) = hosts_of(es) {
        let base = match host_entries(h, hostname) {
            Some(s) => s,
            None => seq![],
        };
        let host = entries_insert(base, key, stored_node(value));
        let h2 = entries_insert(h, hostname, TomlNode::Table(host));
        lemma_insert(h, hostname, TomlNode::Table(host));
        lemma_insert(es, "hosts"@, TomlNode::Table(h2));
        lemma_visible_keys(h2, hostname);
        if !has_key(h, hostname) {
            lemma_visible_push(h, hostname, TomlNode::Table(host));
        }
    }
}

/// After a host is removed, reading its settings fails as for an unknown host and
/// it is no longer among the configured hosts; the other hosts stay.
pub proof fn law_unset_host(es: Entries, hostname: Seq<char>, key: Seq<char>)
    requires
        config_valid(es),
        hostname.len() > 0,
    ensures
        config_unset_host(es, hostname) matches Ok(es2) ==> {
            &&& config_get(es2, hostname, key) == Err::<Seq<char>, ConfigErr>(ConfigErr::HostNotFound(hostname))
            &&& config_hosts(es2) matches Ok(hs) && !hs.contains(hostname)
            &&& forall|n: Seq<char>| n != hostname ==> (hs_contains(config_hosts(es2), n)
                <==> hs_contains(config_hosts(es), n))
        },
{
    if let Ok(h) = hosts_of(es) {
        let h2 = entries_remove(h, hostname);
        lemma_remove(h, hostname);
        lemma_insert(es, "hosts"@, TomlNode::Table(h2));
        lemma_visible_keys(h2, hostname);
        assert forall|n: Seq<char>| n != hostname implies (visible_keys(h2).contains(n) <==> visible_keys(h).contains(n)) by {
            lemma_visible_keys(h2, n);
            lemma_visible_keys(h, n);
        }
    }
}


/// What a command line expands to does not depend on the program name it starts
/// with.
pub proof fn law_expand_ignores_program_name(es: Entries, args: Seq<Seq<char>>, program: Seq<char>)
    requires
        args.len() >= 1,
    ensures
        config_expand(es, args.update(0, program)) == config_expand(es, args),
{
    let args2 = args.update(0, program);
    assert(args2.skip(1) =~= args.skip(1));
    if args.len() >= 2 {
        assert(args2[1] == args[1]);
        assert(args2.skip(2) =~= args.skip(2));
    }
}


/// Removing a host keeps the other hosts in their order, and every other setting.
proof fn lemma_unset_keeps(es: Entries, hostname: Seq<char>)
    requires
        config_valid(es),
        hostname.len() > 0,
    ensures
        config_unset_host(es, hostname) matches Ok(es2) ==> {
            &&& config_hosts(es) matches Ok(b) && config_hosts(es2) == Ok::<Seq<Seq<char>>, ConfigErr>(
                b.filter(other_than(hostname)),
            )
            &&& forall|h: Seq<char>, k: Seq<char>|
                crate::config::unset_leaves(hostname, h, k) ==> #[trigger] config_get(es2, h, k) == config_get(es, h, k)
        },
{
    if let Ok(h) = hosts_of(es) {
        let h2 = entries_remove(h, hostname);
        let es2 = entries_insert(es, "hosts"@, TomlNode::Table(h2));
        lemma_remove(h, hostname);
        lemma_insert(es, "hosts"@, TomlNode::Table(h2));
        lemma_visible_keys_remove(h, hostname);
        assert(hosts_of(es2) == Ok::<Entries, ConfigErr>(h2));
        assert forall|hh: Seq<char>, k: Seq<char>|
            crate::config::unset_leaves(hostname, hh, k) implies #[trigger] config_get(es2, hh, k) == config_get(es, hh, k) by {
            if hh.len() == 0 {
                assert(node_of(es2, k) == node_of(es, k));
            } else {
                assert(node_of(h2, hh) == node_of(h, hh));
            }
        }
    }
}

/// What the settings of host `k` in the hosts table `h` say of `default`.
pub open spec fn default_mark(h: Entries, k: Seq<char>) -> Result<bool, ConfigErr> {
    bool_value(
        match host_entries(h, k) {
            Some(s) => s,
            None => seq![],
        },
        "default"@,
    )
}

/// The host that `first_default` finds is a key that is marked default, behind keys
/// that all read unmarked; the first marked key behind such keys is the one found;
/// and when every key reads unmarked there is no default host.
proof fn lemma_first_default(h: Entries, keys: Seq<Seq<char>>)
    ensures
        first_default(h, keys) matches Ok(d) ==> exists|i: int|
            0 <= i < keys.len() && keys[i] == d && #[trigger] default_mark(h, keys[i]) == Ok::<bool, ConfigErr>(true)
                && forall|j: int| 0 <= j < i ==> default_mark(h, keys[j]) == Ok::<bool, ConfigErr>(false),
        forall|i: int|
            0 <= i < keys.len() && #[trigger] default_mark(h, keys[i]) == Ok::<bool, ConfigErr>(true) && (forall|j: int|
                0 <= j < i ==> default_mark(h, keys[j]) == Ok::<bool, ConfigErr>(false)) ==> first_default(h, keys)
                == Ok::<Seq<char>, ConfigErr>(keys[i]),
        (forall|j: int| 0 <= j < keys.len() ==> default_mark(h, keys[j]) == Ok::<bool, ConfigErr>(false)) ==> first_default(h, keys)
            == Err::<Seq<char>, ConfigErr>(ConfigErr::NoDefaultHost),
    decreases keys.len(),
{
    if keys.len() > 0 {
        let rest = keys.skip(1);
        lemma_first_default(h, rest);
        if let Ok(d) = first_default(h, keys) {
            if default_mark(h, keys[0]) == Ok::<bool, ConfigErr>(true) {
                assert(default_mark(h, keys[0]) == Ok::<bool, ConfigErr>(true));
            } else {
                let k = choose|k: int|
                    0 <= k < rest.len() && rest[k] == d && #[trigger] default_mark(h, rest[k]) == Ok::<bool, ConfigErr>(true)
                        && forall|j: int| 0 <= j < k ==> default_mark(h, rest[j]) == Ok::<bool, ConfigErr>(false);
                assert(keys[k + 1] == rest[k]);
                assert forall|j: int| 0 <= j < k + 1 implies default_mark(h, keys[j]) == Ok::<bool, ConfigErr>(false) by {
                    if j > 0 {
                        assert(keys[j] == rest[j - 1]);
                    }
                }
                assert(default_mark(h, keys[k + 1]) == Ok::<bool, ConfigErr>(true));
            }
        }
        assert forall|i: int|
            0 <= i < keys.len() && #[trigger] default_mark(h, keys[i]) == Ok::<bool, ConfigErr>(true) && (forall|j: int|
                0 <= j < i ==> default_mark(h, keys[j]) == Ok::<bool, ConfigErr>(false)) implies first_default(h, keys)
                == Ok::<Seq<char>, ConfigErr>(keys[i]) by {
            if i > 0 {
                assert(default_mark(h, keys[0]) == Ok::<bool, ConfigErr>(false));
                assert(rest[i - 1] == keys[i]);
                assert forall|j: int| 0 <= j < i - 1 implies default_mark(h, rest[j]) == Ok::<bool, ConfigErr>(false) by {
                    assert(rest[j] == keys[j + 1]);
                }
            }
        }
        if forall|j: int| 0 <= j < keys.len() ==> default_mark(h, keys[j]) == Ok::<bool, ConfigErr>(false) {
            assert(default_mark(h, keys[0]) == Ok::<bool, ConfigErr>(false));
            assert forall|j: int| 0 <= j < rest.len() implies default_mark(h, rest[j]) == Ok::<bool, ConfigErr>(false) by {
                assert(rest[j] == keys[j + 1]);
            }
        }
    }
}

/// The default host: with no host there is none; a single host is the default
/// whatever it is marked; with two or more, the default is the first host whose
/// settings read `default = true`, every host before it reading `default` as false
/// (so when exactly one host is so marked and the others read false, it is that
/// one), and when every host reads false there is no default host.
pub proof fn law_default_host_is_marked(es: Entries, h: Entries)
    requires
        hosts_of(es) == Ok::<Entries, ConfigErr>(h),
    ensures
        visible_keys(h).len() == 0 ==> config_default_host(es) == Err::<Seq<char>, ConfigErr>(ConfigErr::NoHosts),
        visible_keys(h).len() == 1 ==> config_default_host(es) == Ok::<Seq<char>, ConfigErr>(visible_keys(h)[0]),
        visible_keys(h).len() >= 2 ==> (config_default_host(es) matches Ok(d) ==> exists|i: int|
            0 <= i < visible_keys(h).len() && visible_keys(h)[i] == d && #[trigger] default_mark(h, visible_keys(h)[i])
                == Ok::<bool, ConfigErr>(true) && forall|j: int|
                0 <= j < i ==> default_mark(h, visible_keys(h)[j]) == Ok::<bool, ConfigErr>(false)),
        visible_keys(h).len() >= 2 ==> forall|i: int|
            0 <= i < visible_keys(h).len() && #[trigger] default_mark(h, visible_keys(h)[i]) == Ok::<bool, ConfigErr>(true)
                && (forall|j: int| 0 <= j < visible_keys(h).len() && j != i ==> default_mark(h, visible_keys(h)[j]) == Ok::<bool, ConfigErr>(false))
                ==> config_default_host(es) == Ok::<Seq<char>, ConfigErr>(visible_keys(h)[i]),
        visible_keys(h).len() >= 2 && (forall|j: int|
            0 <= j < visible_keys(h).len() ==> default_mark(h, visible_keys(h)[j]) == Ok::<bool, ConfigErr>(false))
            ==> config_default_host(es) == Err::<Seq<char>, ConfigErr>(ConfigErr::NoDefaultHost),
{
    lemma_first_default(h, visible_keys(h));
}

} // verus!
