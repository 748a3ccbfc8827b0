//! `oxide config get|set|list`: reading and changing the configuration.
use vstd::prelude::*;

use crate::colors::{AnsiStyle, ColorScheme};
use crate::config::{
    Config, OptionSpec, allowed_values_for, config_options, is_known_key, option_specs,
    validate_key, validate_value,
};
use crate::error::{ConfigErr, ConfigError, config_err_message, str_result};
use crate::text::{concat2, concat3, owned, str_equal};

verus! {

/// Print the value of a given configuration key.
pub struct CmdConfigGet {
    /// The key to get the value of.
    pub key: String,
    /// Get per-host setting (empty for the global one).
    pub host: String,
}

impl CmdConfigGet {
    /// What the command prints: the value and a newline; or the error of the read.
    pub fn run<C: Config>(&self, config: &C) -> (r: Result<String, ConfigError>)
        requires
            config.valid(),
        ensures
            match r {
                Ok(out) => config.spec_get(self.host@, self.key@) == Ok::<Seq<char>, ConfigErr>(out@.drop_last())
                    && out@.len() > 0 && out@.last() == '\n',
                Err(e) => config.spec_get(self.host@, self.key@) == Err::<Seq<char>, ConfigErr>(e@),
            },
    {
        let value = config.get(self.host.as_str(), self.key.as_str())?;
        let out = concat2(value.as_str(), "\n");
        proof {
            reveal_strlit("\n");
            assert(out@.drop_last() =~= value@);
        }
        Ok(out)
    }
}

/// Update configuration with a value for the given key.
pub struct CmdConfigSet {
    /// The key to set the value of.
    pub key: String,
    /// The value to set.
    pub value: String,
    /// Set per-host setting (empty for the global one).
    pub host: String,
}

/// The message for a key that no option has.
pub open spec fn unknown_key_message(cs: ColorScheme, key: Seq<char>) -> Seq<char> {
    cs.styled(AnsiStyle::Yellow, "!"@) + " warning: '"@ + key + "' is not a known configuration key"@
}

impl CmdConfigSet {
    /// Validates the key and the value, then sets the value; writing the file is
    /// left to the caller. Fails, leaving the configuration as it was, with the
    /// message of the first check that refuses.
    pub fn run<C: Config>(&self, config: &mut C, cs: &ColorScheme) -> (r: Result<(), String>)
        requires
            old(config).valid(),
        ensures
            final(config).valid(),
            !is_known_key(self.key@) ==> r is Err && r->Err_0@ == unknown_key_message(
                *cs,
                self.key@,
            ) && *final(config) == *old(config),
            is_known_key(self.key@) && allowed_values_for(option_specs(), self.key@).len() != 0
                && !allowed_values_for(option_specs(), self.key@).contains(self.value@) ==> r is Err
                && r->Err_0@ == "invalid values, valid values: "@ + crate::config::debug_strings(
                allowed_values_for(option_specs(), self.key@),
            ) && *final(config) == *old(config),
            is_known_key(self.key@) && (allowed_values_for(option_specs(), self.key@).len() == 0
                || allowed_values_for(option_specs(), self.key@).contains(self.value@)) ==> match old(config).spec_set(
                self.host@,
                self.key@,
                self.value@,
            ) {
                Ok(_) => r is Ok && final(config).spec_get(self.host@, self.key@) == Ok::<Seq<char>, ConfigErr>(
                    if old(config).spec_override(self.key@).len() > 0 {
                        old(config).spec_override(self.key@)
                    } else {
                        self.value@
                    },
                ),
                Err(e) => r is Err && (!(e is Parse) ==> r->Err_0@ == config_err_message(e)),
            },
    {
        if validate_key(self.key.as_str()).is_err() {
            let icon = cs.warning_icon();
            let msg = concat3(icon.as_str(), " warning: '", self.key.as_str());
            let msg = concat2(msg.as_str(), "' is not a known configuration key");
            return Err(msg);
        }
        match validate_value(self.key.as_str(), self.value.as_str()) {
            Err(e) => {
                return Err(e.to_string());
            },
            Ok(()) => {},
        }
        match config.set(self.host.as_str(), self.key.as_str(), self.value.as_str()) {
            Ok(()) => Ok(()),
            Err(e) => Err(e.to_string()),
        }
    }
}

/// Print a list of configuration keys and values.
pub struct CmdConfigList {
    /// Get per-host configuration (empty for the global one).
    pub host: String,
}

/// The keys that the listing shows, in order.
pub open spec fn listed_keys() -> Seq<Seq<char>> {
    seq!["editor"@, "prompt"@, "browser"@, "format"@]
}

/// The value shown for `key` when it is not set: `format` defaults to `table`.
pub open spec fn listed_default(key: Seq<char>) -> Option<Seq<char>> {
    if key == "format"@ {
        Some("table"@)
    } else {
        None
    }
}

/// What listing the keys `keys` prints: `key=value` lines in order. A key that is
/// not set shows its default when it has one; otherwise a key without a value stops
/// the listing with its error when no host is given, and is skipped for a host (a
/// host need not set every key).
pub open spec fn list_output<C: Config>(c: C, host: Seq<char>, keys: Seq<Seq<char>>) -> Result<Seq<char>, ConfigErr>
    decreases keys.len(),
{
    if keys.len() == 0 {
        Ok(Seq::empty())
    } else {
        let k = keys[0];
        match c.spec_get(host, k) {
            Ok(v) => prefixed(k + "="@ + v + "\n"@, list_output(c, host, keys.skip(1))),
            Err(e) => if e is KeyNotFound && listed_default(k) is Some {
                prefixed(k + "="@ + listed_default(k)->0 + "\n"@, list_output(c, host, keys.skip(1)))
            } else if host.len() == 0 {
                Err(e)
            } else {
                list_output(c, host, keys.skip(1))
            },
        }
    }
}

/// `p` put before the text of a successful result.
pub open spec fn prefixed(p: Seq<char>, r: Result<Seq<char>, ConfigErr>) -> Result<Seq<char>, ConfigErr> {
    match r {
        Ok(s) => Ok(p + s),
        Err(e) => Err(e),
    }
}

impl CmdConfigList {
    /// What the command prints, or the error that stopped it.
    pub fn run<C: Config>(&self, config: &C) -> (r: Result<String, ConfigError>)
        requires
            config.valid(),
        ensures
            str_result(r) == list_output(*config, self.host@, listed_keys()),
    {
        let keys: Vec<&str> = vec!["editor", "prompt", "browser", "format"];
        proof {
            assert(keys@.map_values(|k: &str| k@) =~= listed_keys());
        }
        let mut out = owned("");
        let mut i: usize = 0;
        proof {
            reveal_strlit("");
            assert(listed_keys().skip(0) =~= listed_keys());
            match list_output(*config, self.host@, listed_keys()) {
                Ok(t) => assert(out@ + t =~= t),
                Err(_) => {},
            }
        }
        while i < keys.len()
            invariant
                config.valid(),
                keys@.len() == listed_keys().len(),
                forall|j: int| 0 <= j < keys@.len() ==> #[trigger] keys@[j]@ == listed_keys()[j],
                i <= keys@.len(),
                list_output(*config, self.host@, listed_keys()) == prefixed(
                    out@,
                    list_output(*config, self.host@, listed_keys().skip(i as int)),
                ),
            decreases keys@.len() - i,
        {
            let key = keys[i];
            assert(listed_keys().skip(i as int).skip(1) =~= listed_keys().skip(i + 1));
            assert(listed_keys().skip(i as int)[0] == key@);
            match config.get(self.host.as_str(), key) {
                Ok(v) => {
                    let line = concat3(key, "=", v.as_str());
                    let ghost old_out = out@;
                    out.append(line.as_str());
                    out.append("\n");
                    proof {
                        match list_output(*config, self.host@, listed_keys().skip(i + 1)) {
                            Ok(t) => assert(old_out + (line@ + "\n"@ + t) =~= out@ + t),
                            Err(_) => {},
                        }
                    }
                },
                Err(e) => {
                    let not_found = match e {
                        ConfigError::KeyNotFound(_) => true,
                        _ => false,
                    };
                    if not_found && str_equal(key, "format") {
                        let ghost old_out = out@;
                        out.append("format=table\n");
                        proof {
                            reveal_strlit("format=table\n");
                            reveal_strlit("format");
                            reveal_strlit("table");
                            reveal_strlit("=");
                            reveal_strlit("\n");
                            assert(key@ == "format"@);
                            assert(listed_default(key@) == Some("table"@));
                            match list_output(*config, self.host@, listed_keys().skip(i + 1)) {
                                Ok(t) => assert(old_out + (key@ + "="@ + "table"@ + "\n"@ + t) =~= out@ + t),
                                Err(_) => {},
                            }
                        }
                    } else {
                        if self.host.unicode_len() == 0 {
                            return Err(e);
                        }
                    }
                },
            }
            i = i + 1;
        }
        proof {
            assert(listed_keys().skip(keys@.len() as int) =~= Seq::<Seq<char>>::empty());
            assert(out@ + Seq::<char>::empty() =~= out@);
        }
        Ok(out)
    }
}

} // verus!
