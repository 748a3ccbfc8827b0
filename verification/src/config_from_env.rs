//! A configuration in which environment variables override the stored values.
use vstd::prelude::*;

use crate::config::Config;
use crate::config_alias::{AliasConfig, words_view};
use crate::config_from_file::{
    ConfigSource, FileConfig, aliases_of, config_default_host, config_expand, config_get, hosts_of,
};
use crate::config_map::ConfigMap;
use crate::env::EnvVars;
use crate::error::{ConfigErr, ConfigError, ReadOnlyEnvVarError, str_result};
use crate::text::{concat2, owned, str_equal, trim_ws};
use crate::toml::{Entries, TomlNode, entries_insert, entries_remove, toml_entries, toml_text};

verus! {

/// `heck::AsShoutySnakeCase`, displayed: `key` in upper case with words separated by `_`.
pub uninterp spec fn shouty_snake(key: Seq<char>) -> Seq<char>;

/// `heck::AsShoutySnakeCase` of `key`, formatted.
#[verifier::external_body]
fn shouty_snake_case(key: &str) -> (r: String)
    ensures
        r@ == shouty_snake(key@),
{
    format!("{}", heck::AsShoutySnakeCase(key))
}

/// The environment variable that overrides `key`: `OXIDE_TOKEN` for the token,
/// `OXIDE_` followed by the key in shouty snake case for the others.
pub open spec fn override_var(key: Seq<char>) -> Seq<char> {
    if key == "token"@ {
        "OXIDE_TOKEN"@
    } else {
        "OXIDE_"@ + shouty_snake(key)
    }
}

/// A configuration whose values the environment may override.
pub struct EnvConfig {
    pub config: FileConfig,
    pub env: EnvVars,
}

impl EnvConfig {
    /// The configuration `config` under the environment `env`.
    pub fn inherit_env(config: FileConfig, env: EnvVars) -> (r: EnvConfig)
        ensures
            r.config == config,
            r.env == env,
    {
        EnvConfig { config, env }
    }

    fn override_var_name(key: &str) -> (r: String)
        ensures
            r@ == override_var(key@),
    {
        if str_equal(key, "token") {
            owned("OXIDE_TOKEN")
        } else {
            let name = shouty_snake_case(key);
            concat2("OXIDE_", name.as_str())
        }
    }
}

impl Config for EnvConfig {
    open spec fn valid(&self) -> bool {
        self.config.wf()
    }

    open spec fn spec_get(&self, hostname: Seq<char>, key: Seq<char>) -> Result<Seq<char>, ConfigErr> {
        let v = self.env.value(override_var(key));
        if v.len() > 0 {
            Ok(v)
        } else {
            config_get(self.config.entries(), hostname, key)
        }
    }

    open spec fn spec_hosts(&self) -> Result<Seq<Seq<char>>, ConfigErr> {
        crate::config_from_file::config_hosts(self.config.entries())
    }

    open spec fn renders_config(&self, text: Seq<char>) -> bool {
        self.config.renders_config(text)
    }

    open spec fn renders_hosts(&self, text: Seq<char>) -> bool {
        self.config.renders_hosts(text)
    }

    open spec fn spec_check_writable(&self, hostname: Seq<char>, key: Seq<char>) -> Result<(), ConfigErr> {
        if key == "token"@ && self.env.value("OXIDE_TOKEN"@).len() > 0 {
            Err(ConfigErr::ReadOnly("OXIDE_TOKEN"@))
        } else {
            Ok(())
        }
    }

    open spec fn spec_override(&self, key: Seq<char>) -> Seq<char> {
        self.env.value(override_var(key))
    }

    open spec fn spec_unset_host(&self, hostname: Seq<char>) -> Result<(), ConfigErr> {
        match crate::config_from_file::config_unset_host(self.config.entries(), hostname) {
            Ok(_) => Ok(()),
            Err(e) => Err(e),
        }
    }

    open spec fn spec_expand_alias(&self, args: Seq<Seq<char>>) -> Result<(Seq<Seq<char>>, bool), ConfigErr> {
        crate::config_from_file::config_expand(self.config.entries(), args)
    }

    open spec fn spec_set(&self, hostname: Seq<char>, key: Seq<char>, value: Seq<char>) -> Result<(), ConfigErr> {
        match crate::config_from_file::config_set(self.config.entries(), hostname, key, value) {
            Ok(_) => Ok(()),
            Err(e) => Err(e),
        }
    }

    open spec fn spec_default_host(&self) -> Result<Seq<char>, ConfigErr> {
        let v = self.env.value("OXIDE_HOST"@);
        if v.len() > 0 {
            Ok(v)
        } else {
            config_default_host(self.config.entries())
        }
    }

    fn get(&self, hostname: &str, key: &str) -> (r: Result<String, ConfigError>) {
        match self.get_with_source(hostname, key) {
            Ok((v, _)) => Ok(v),
            Err(e) => Err(e),
        }
    }

    /// A non-empty overriding variable wins, and is the source; otherwise the value
    /// and its source are the stored configuration's.
    fn get_with_source(&self, hostname: &str, key: &str) -> (r: Result<(String, ConfigSource), ConfigError>)
        ensures
            self.env.value(override_var(key@)).len() > 0 ==> (r matches Ok((_, src)) && src matches ConfigSource::EnvVar(n)
                && n@ == override_var(key@)),
            self.env.value(override_var(key@)).len() == 0 ==> match r {
                Ok((v, src)) => config_get(self.config.entries(), hostname@, key@) == Ok::<Seq<char>, ConfigErr>(v@) && (
                if hostname@.len() == 0 {
                    src is ConfigFile
                } else {
                    src is HostsFile
                }),
                Err(e) => config_get(self.config.entries(), hostname@, key@) == Err::<Seq<char>, ConfigErr>(e@),
            },
    {
        let var = Self::override_var_name(key);
        let value = self.env.get_env_var(var.as_str());
        if value.unicode_len() > 0 {
            return Ok((value, ConfigSource::EnvVar(var)));
        }
        self.config.get_with_source(hostname, key)
    }

    fn set(&mut self, hostname: &str, key: &str, value: &str) -> (r: Result<(), ConfigError>)
        ensures
            final(self).env == old(self).env,
            crate::config_from_file::config_set(old(self).config.entries(), hostname@, key@, value@) matches Ok(es) ==> (
            r is Ok && final(self).config.entries() == es),
    {
        proof {
            crate::config_from_file::law_set_then_get(self.config.entries(), hostname@, key@, value@);
        }
        let ghost before = *self;
        let r = self.config.set(hostname, key, value);
        proof {
            assert forall|h: Seq<char>, k: Seq<char>|
                crate::config::set_leaves(hostname@, key@, h, k) && r is Ok && before.spec_get(h, k) != Err::<
                    Seq<char>,
                    ConfigErr,
                >(ConfigErr::HostNotFound(h)) implies #[trigger] self.spec_get(h, k) == before.spec_get(h, k) by {
                if self.env.value(override_var(k)).len() == 0 {
                    assert(self.config.spec_get(h, k) == before.config.spec_get(h, k));
                }
            }
        }
        r
    }

    fn unset_host(&mut self, hostname: &str) -> (r: Result<(), ConfigError>)
        ensures
            final(self).env == old(self).env,
            crate::config_from_file::config_unset_host(old(self).config.entries(), hostname@) matches Ok(es) ==> (r is Ok
                && final(self).config.entries() == es),
    {
        let ghost before = *self;
        let r = self.config.unset_host(hostname);
        proof {
            assert forall|h: Seq<char>, k: Seq<char>|
                crate::config::unset_leaves(hostname@, h, k) && r is Ok implies #[trigger] self.spec_get(h, k)
                == before.spec_get(h, k) by {
                if self.env.value(override_var(k)).len() == 0 {
                    assert(self.config.spec_get(h, k) == before.config.spec_get(h, k));
                }
            }
        }
        r
    }

    fn hosts(&self) -> (r: Result<Vec<String>, ConfigError>) {
        self.config.hosts()
    }

    fn default_host(&self) -> (r: Result<String, ConfigError>) {
        match self.default_host_with_source() {
            Ok((h, _)) => Ok(h),
            Err(e) => Err(e),
        }
    }

    /// `OXIDE_HOST`, when set to something, names the default host.
    fn default_host_with_source(&self) -> (r: Result<(String, ConfigSource), ConfigError>)
        ensures
            match r {
                Ok((h, src)) => self.spec_default_host() == Ok::<Seq<char>, ConfigErr>(h@) && (if self.env.value(
                    "OXIDE_HOST"@,
                ).len() > 0 {
                    src matches ConfigSource::EnvVar(n) && n@ == "OXIDE_HOST"@
                } else {
                    src is HostsFile
                }),
                Err(e) => self.spec_default_host() == Err::<Seq<char>, ConfigErr>(e@),
            },
    {
        let host = self.env.get_env_var("OXIDE_HOST");
        if host.unicode_len() > 0 {
            return Ok((host, ConfigSource::EnvVar(owned("OXIDE_HOST"))));
        }
        self.config.default_host_with_source()
    }

    fn aliases(&self) -> (r: Result<AliasConfig, ConfigError>)
        ensures
            match r {
                Ok(a) => a.wf() && aliases_of(self.config.entries()) == Ok::<Entries, ConfigErr>(a.entries()),
                Err(e) => aliases_of(self.config.entries()) == Err::<Entries, ConfigErr>(e@),
            },
    {
        self.config.aliases()
    }

    fn save_aliases(&mut self, aliases: &ConfigMap) -> (r: Result<(), ConfigError>)
        ensures
            final(self).env == old(self).env,
            r is Ok,
            final(self).config.entries() == entries_insert(
                old(self).config.entries(),
                "aliases"@,
                TomlNode::Table(aliases.entries()),
            ),
    {
        self.config.save_aliases(aliases)
    }

    fn expand_alias(&self, args: Vec<String>) -> (r: Result<(Vec<String>, bool), ConfigError>)
        ensures
            match r {
                Ok((v, shell)) => config_expand(self.config.entries(), words_view(args@)) == Ok::<
                    (Seq<Seq<char>>, bool),
                    ConfigErr,
                >((words_view(v@), shell)),
                Err(e) => config_expand(self.config.entries(), words_view(args@)) == Err::<(Seq<Seq<char>>, bool), ConfigErr>(
                    e@,
                ),
            },
    {
        self.config.expand_alias(args)
    }

    /// The token cannot be written while `OXIDE_TOKEN` provides it.
    fn check_writable(&self, hostname: &str, key: &str) -> (r: Result<(), ConfigError>)
        ensures
            match r {
                Ok(_) => !(key@ == "token"@ && self.env.value("OXIDE_TOKEN"@).len() > 0),
                Err(e) => key@ == "token"@ && self.env.value("OXIDE_TOKEN"@).len() > 0 && e@ == ConfigErr::ReadOnly(
                    "OXIDE_TOKEN"@,
                ),
            },
    {
        if str_equal(key, "token") {
            let token = self.env.get_env_var("OXIDE_TOKEN");
            if token.unicode_len() > 0 {
                return Err(ConfigError::ReadOnly(ReadOnlyEnvVarError::Variable(owned("OXIDE_TOKEN"))));
            }
        }
        self.config.check_writable(hostname, key)
    }

    fn config_to_string(&self) -> (r: Result<String, ConfigError>)
        ensures
            r matches Ok(text) && exists|t: toml_edit::Table| toml_entries(t) == entries_remove(self.config.entries(), "hosts"@)
                && text@ == trim_ws(toml_text(t)),
    {
        self.config.config_to_string()
    }

    fn hosts_to_string(&self) -> (r: Result<String, ConfigError>)
        ensures
            match r {
                Ok(text) => exists|t: toml_edit::Table| hosts_of(self.config.entries()) == Ok::<Entries, ConfigErr>(toml_entries(t))
                    && text@ == trim_ws(toml_text(t)),
                Err(e) => hosts_of(self.config.entries()) == Err::<Entries, ConfigErr>(e@),
            },
    {
        self.config.hosts_to_string()
    }
}


/// A value set in the environment wins over the stored one, for every host.
pub proof fn law_env_overrides(c: EnvConfig, hostname: Seq<char>, key: Seq<char>)
    requires
        c.env.value(override_var(key)).len() > 0,
    ensures
        c.spec_get(hostname, key) == Ok::<Seq<char>, ConfigErr>(c.env.value(override_var(key))),
{
}

/// While `OXIDE_TOKEN` provides the token, the token cannot be stored.
pub proof fn law_token_read_only(c: EnvConfig, hostname: Seq<char>)
    requires
        c.env.value("OXIDE_TOKEN"@).len() > 0,
    ensures
        c.spec_check_writable(hostname, "token"@) == Err::<(), ConfigErr>(ConfigErr::ReadOnly("OXIDE_TOKEN"@)),
{
}

/// `OXIDE_HOST`, when set to something, is the default host.
pub proof fn law_env_default_host(c: EnvConfig)
    requires
        c.env.value("OXIDE_HOST"@).len() > 0,
    ensures
        c.spec_default_host() == Ok::<Seq<char>, ConfigErr>(c.env.value("OXIDE_HOST"@)),
{
}

} // verus!
