//! The known configuration options, their validation, and the blank configuration.
use vstd::prelude::*;

use crate::config_alias::AliasConfig;
use crate::config_from_file::{ConfigSource, FileConfig, config_valid, hs_contains, lemma_deep_valid, lemma_hosts_valid};
use crate::config_map::ConfigMap;
use crate::error::{ConfigErr, ConfigError, str_result, unit_result};
use crate::text::{owned, str_equal};
use crate::toml::{other_than, 
    Entries, TomlNode, TomlValue, entries_insert, keys_distinct, deep_distinct, toml_entries, toml_parse, toml_parse_result,
    toml_table_insert,
};

verus! {

/// Reading and changing the configuration of the command line.
pub trait Config: Sized {
    /// The configuration is well formed.
    spec fn valid(&self) -> bool;

    /// What reading `key` (for `hostname`, or globally when it is empty) yields.
    spec fn spec_get(&self, hostname: Seq<char>, key: Seq<char>) -> Result<Seq<char>, ConfigErr>;

    /// The value of `key`, globally when `hostname` is empty, else for that host.
    fn get(&self, hostname: &str, key: &str) -> (r: Result<String, ConfigError>)
        requires
            self.valid(),
        ensures
            str_result(r) == self.spec_get(hostname@, key@),
    ;

    /// The value of `key` and where it comes from.
    fn get_with_source(&self, hostname: &str, key: &str) -> (r: Result<(String, ConfigSource), ConfigError>)
        requires
            self.valid(),
        ensures
            match r {
                Ok((v, _)) => self.spec_get(hostname@, key@) == Ok::<Seq<char>, ConfigErr>(v@),
                Err(e) => self.spec_get(hostname@, key@) == Err::<Seq<char>, ConfigErr>(e@),
            },
    ;

    /// The value that overrides whatever is stored under `key` (empty when none does).
    spec fn spec_override(&self, key: Seq<char>) -> Seq<char>;

    /// Whether setting `key` for `hostname` succeeds, or the error it fails with.
    spec fn spec_set(&self, hostname: Seq<char>, key: Seq<char>, value: Seq<char>) -> Result<(), ConfigErr>;

    /// Sets `key` to `value`, globally when `hostname` is empty, else for that host.
    /// Reading the key back gives the value, unless something overrides it.
    fn set(&mut self, hostname: &str, key: &str, value: &str) -> (r: Result<(), ConfigError>)
        requires
            old(self).valid(),
        ensures
            final(self).valid(),
            unit_result(r) == old(self).spec_set(hostname@, key@, value@),
            final(self).spec_override(key@) == old(self).spec_override(key@),
            r is Ok ==> final(self).spec_get(hostname@, key@) == Ok::<Seq<char>, ConfigErr>(
                if old(self).spec_override(key@).len() > 0 { old(self).spec_override(key@) } else { value@ },
            ),
            r is Ok ==> forall|h: Seq<char>, k: Seq<char>|
                #![trigger final(self).spec_get(h, k)]
                set_leaves(hostname@, key@, h, k) && old(self).spec_get(h, k) != Err::<Seq<char>, ConfigErr>(
                    ConfigErr::HostNotFound(h),
                ) ==> final(self).spec_get(h, k) == old(self).spec_get(h, k),
            r is Err ==> *final(self) == *old(self),
    ;

    /// Whether removing `hostname` succeeds, or the error it fails with.
    spec fn spec_unset_host(&self, hostname: Seq<char>) -> Result<(), ConfigErr>;

    /// Removes a host.
    fn unset_host(&mut self, hostname: &str) -> (r: Result<(), ConfigError>)
        requires
            old(self).valid(),
        ensures
            final(self).valid(),
            unit_result(r) == old(self).spec_unset_host(hostname@),
            r is Err ==> *final(self) == *old(self),
            r is Ok ==> hosts_after_unset(old(self).spec_hosts(), final(self).spec_hosts(), hostname@),
            r is Ok ==> forall|h: Seq<char>, k: Seq<char>|
                #![trigger final(self).spec_get(h, k)]
                unset_leaves(hostname@, h, k) ==> final(self).spec_get(h, k) == old(self).spec_get(h, k),
    ;

    /// What `hosts` yields.
    spec fn spec_hosts(&self) -> Result<Seq<Seq<char>>, ConfigErr>;

    /// The configured hosts.
    fn hosts(&self) -> (r: Result<Vec<String>, ConfigError>)
        requires
            self.valid(),
        ensures
            match r {
                Ok(v) => self.spec_hosts() == Ok::<Seq<Seq<char>>, ConfigErr>(strings_view(v@)),
                Err(e) => self.spec_hosts() == Err::<Seq<Seq<char>>, ConfigErr>(e@),
            },
    ;

    /// What `default_host` yields.
    spec fn spec_default_host(&self) -> Result<Seq<char>, ConfigErr>;

    /// The default host.
    fn default_host(&self) -> (r: Result<String, ConfigError>)
        requires
            self.valid(),
        ensures
            str_result(r) == self.spec_default_host(),
    ;

    /// The default host and where it comes from.
    fn default_host_with_source(&self) -> (r: Result<(String, ConfigSource), ConfigError>)
        requires
            self.valid(),
        ensures
            match r {
                Ok((h, _)) => self.spec_default_host() == Ok::<Seq<char>, ConfigErr>(h@),
                Err(e) => self.spec_default_host() == Err::<Seq<char>, ConfigErr>(e@),
            },
    ;

    /// The aliases.
    fn aliases(&self) -> (r: Result<AliasConfig, ConfigError>)
        requires
            self.valid(),
        ensures
            r matches Ok(a) ==> a.wf(),
    ;

    /// Stores the aliases.
    fn save_aliases(&mut self, aliases: &ConfigMap) -> (r: Result<(), ConfigError>)
        requires
            old(self).valid(),
            aliases.wf(),
        ensures
            final(self).valid(),
    ;

    /// What expanding the aliases of the command line `args` yields.
    spec fn spec_expand_alias(&self, args: Seq<Seq<char>>) -> Result<(Seq<Seq<char>>, bool), ConfigErr>;

    /// Expands an alias at the start of the command line `args` (program name first):
    /// the arguments after the program name, with an alias in first place replaced
    /// by its expansion, and whether the expansion is a shell command.
    fn expand_alias(&self, args: Vec<String>) -> (r: Result<(Vec<String>, bool), ConfigError>)
        requires
            self.valid(),
        ensures
            match r {
                Ok((v, shell)) => self.spec_expand_alias(strings_view(args@)) == Ok::<(Seq<Seq<char>>, bool), ConfigErr>(
                    (strings_view(v@), shell),
                ),
                Err(e) => self.spec_expand_alias(strings_view(args@)) == Err::<(Seq<Seq<char>>, bool), ConfigErr>(e@),
            },
            r matches Ok((v, shell)) ==> (shell ==> v@.len() >= 1),
    ;

    /// What `check_writable` yields.
    spec fn spec_check_writable(&self, hostname: Seq<char>, key: Seq<char>) -> Result<(), ConfigErr>;

    /// Whether `key` may be written for `hostname`.
    fn check_writable(&self, hostname: &str, key: &str) -> (r: Result<(), ConfigError>)
        requires
            self.valid(),
        ensures
            unit_result(r) == self.spec_check_writable(hostname@, key@),
    ;

    /// `text` is a rendering of the stored configuration without its hosts.
    spec fn renders_config(&self, text: Seq<char>) -> bool;

    /// `text` is a rendering of the stored hosts table.
    spec fn renders_hosts(&self, text: Seq<char>) -> bool;

    /// The text of the config file.
    fn config_to_string(&self) -> (r: Result<String, ConfigError>)
        requires
            self.valid(),
        ensures
            r matches Ok(text) && self.renders_config(text@),
    ;

    /// The text of the hosts file; it fails exactly when the hosts cannot be read.
    fn hosts_to_string(&self) -> (r: Result<String, ConfigError>)
        requires
            self.valid(),
        ensures
            match r {
                Ok(text) => self.renders_hosts(text@) && self.spec_hosts() is Ok,
                Err(e) => self.spec_hosts() == Err::<Seq<Seq<char>>, ConfigErr>(e@),
            },
    ;
}

/// Setting `key` for `hostname` leaves the read of `k` for `h`: another key or
/// another host, when neither is the global `hosts` table (setting that replaces
/// the hosts).
pub open spec fn set_leaves(hostname: Seq<char>, key: Seq<char>, h: Seq<char>, k: Seq<char>) -> bool {
    &&& (h != hostname || k != key)
    &&& !(hostname.len() == 0 && key == "hosts"@)
    &&& !(h.len() == 0 && k == "hosts"@)
}

/// After setting `key` for `host`, the configuration `c2` reads as `c` did for every
/// read that the set leaves (see `set_leaves`).
pub open spec fn set_keeps_others<C: Config>(c: C, c2: C, host: Seq<char>, key: Seq<char>) -> bool {
    forall|h: Seq<char>, k: Seq<char>|
        #![trigger c2.spec_get(h, k)]
        set_leaves(host, key, h, k) && c.spec_get(h, k) != Err::<Seq<char>, ConfigErr>(ConfigErr::HostNotFound(h))
            ==> c2.spec_get(h, k) == c.spec_get(h, k)
}

/// The hosts `after` removing `host` from the hosts `before`: the other hosts in
/// their order; an empty name changes nothing.
pub open spec fn hosts_after_unset(
    before: Result<Seq<Seq<char>>, ConfigErr>,
    after: Result<Seq<Seq<char>>, ConfigErr>,
    host: Seq<char>,
) -> bool {
    if host.len() == 0 {
        after == before
    } else {
        before matches Ok(b) && after == Ok::<Seq<Seq<char>>, ConfigErr>(b.filter(other_than(host)))
    }
}

/// Removing `host` leaves the read of `k` for `h`: another host, or a global key
/// other than the `hosts` table.
pub open spec fn unset_leaves(host: Seq<char>, h: Seq<char>, k: Seq<char>) -> bool {
    h != host && !(h.len() == 0 && k == "hosts"@)
}

/// A configuration option that the command line knows.
#[derive(Debug)]
pub struct ConfigOption {
    pub key: String,
    pub description: String,
    pub comment: String,
    pub default_value: String,
    pub allowed_values: Vec<String>,
}

/// The model of a `ConfigOption`.
pub struct OptionSpec {
    pub key: Seq<char>,
    pub description: Seq<char>,
    pub comment: Seq<char>,
    pub default_value: Seq<char>,
    pub allowed_values: Seq<Seq<char>>,
}

/// The views of a list of strings.
pub open spec fn strings_view(v: Seq<String>) -> Seq<Seq<char>> {
    v.map_values(|s: String| s@)
}

impl ConfigOption {
    pub open spec fn spec(&self) -> OptionSpec {
        OptionSpec {
            key: self.key@,
            description: self.description@,
            comment: self.comment@,
            default_value: self.default_value@,
            allowed_values: strings_view(self.allowed_values@),
        }
    }
}

/// The known options, in the order in which the configuration file lists them.
pub open spec fn option_specs() -> Seq<OptionSpec> {
    seq![
        OptionSpec {
            key: "editor"@,
            description: "the text editor program to use for authoring text"@,
            comment: "What editor oxide should run when creating text, etc. If blank, will refer to environment."@,
            default_value: ""@,
            allowed_values: seq![],
        },
        OptionSpec {
            key: "prompt"@,
            description: "toggle interactive prompting in the terminal"@,
            comment: "When to interactively prompt. This is a global config that cannot be overridden by hostname."@,
            default_value: "enabled"@,
            allowed_values: seq!["enabled"@, "disabled"@],
        },
        OptionSpec {
            key: "pager"@,
            description: "the terminal pager program to send standard output to"@,
            comment: "A pager program to send command output to, e.g. \"less\". Set the value to \"cat\" to disable the pager."@,
            default_value: ""@,
            allowed_values: seq![],
        },
        OptionSpec {
            key: "browser"@,
            description: "the web browser to use for opening URLs"@,
            comment: "What web browser gh should use when opening URLs. If blank, will refer to environment."@,
            default_value: ""@,
            allowed_values: seq![],
        },
    ]
}

/// `key` names a known option.
pub open spec fn is_known_key(key: Seq<char>) -> bool {
    exists|i: int| 0 <= i < option_specs().len() && option_specs()[i].key == key
}

/// The values allowed for `key`: those of the first known option of that name,
/// none when the key is unknown (an empty list means any value).
pub open spec fn allowed_values_for(opts: Seq<OptionSpec>, key: Seq<char>) -> Seq<Seq<char>>
    decreases opts.len(),
{
    if opts.len() == 0 {
        seq![]
    } else if opts[0].key == key {
        opts[0].allowed_values
    } else {
        allowed_values_for(opts.skip(1), key)
    }
}

fn strings2(a: &str, b: &str) -> (v: Vec<String>)
    ensures
        strings_view(v@) == seq![a@, b@],
{
    let mut v: Vec<String> = Vec::new();
    v.push(owned(a));
    v.push(owned(b));
    assert(strings_view(v@) =~= seq![a@, b@]);
    v
}

fn make_option(key: &str, description: &str, comment: &str, default_value: &str, allowed_values: Vec<String>) -> (o: ConfigOption)
    ensures
        o.spec() == (OptionSpec {
            key: key@,
            description: description@,
            comment: comment@,
            default_value: default_value@,
            allowed_values: strings_view(allowed_values@),
        }),
{
    ConfigOption {
        key: owned(key),
        description: owned(description),
        comment: owned(comment),
        default_value: owned(default_value),
        allowed_values,
    }
}

/// The options that the configuration file holds.
pub fn config_options() -> (r: Vec<ConfigOption>)
    ensures
        r@.len() == option_specs().len(),
        forall|i: int| 0 <= i < r@.len() ==> #[trigger] r@[i].spec() == option_specs()[i],
{
    let mut r: Vec<ConfigOption> = Vec::new();
    let e: Vec<String> = Vec::new();
    assert(strings_view(e@) =~= seq![]);
    r.push(make_option(
        "editor",
        "the text editor program to use for authoring text",
        "What editor oxide should run when creating text, etc. If blank, will refer to environment.",
        "",
        e,
    ));
    r.push(make_option(
        "prompt",
        "toggle interactive prompting in the terminal",
        "When to interactively prompt. This is a global config that cannot be overridden by hostname.",
        "enabled",
        strings2("enabled", "disabled"),
    ));
    let e: Vec<String> = Vec::new();
    assert(strings_view(e@) =~= seq![]);
    r.push(make_option(
        "pager",
        "the terminal pager program to send standard output to",
        "A pager program to send command output to, e.g. \"less\". Set the value to \"cat\" to disable the pager.",
        "",
        e,
    ));
    let e: Vec<String> = Vec::new();
    assert(strings_view(e@) =~= seq![]);
    r.push(make_option(
        "browser",
        "the web browser to use for opening URLs",
        "What web browser gh should use when opening URLs. If blank, will refer to environment.",
        "",
        e,
    ));
    r
}

/// Accepts `key` when it names a known option.
pub fn validate_key(key: &str) -> (r: Result<(), ConfigError>)
    ensures
        match r {
            Ok(_) => is_known_key(key@),
            Err(e) => !is_known_key(key@) && e@ == ConfigErr::InvalidKey(key@),
        },
{
    let options = config_options();
    let mut i: usize = 0;
    while i < options.len()
        invariant
            options@.len() == option_specs().len(),
            forall|j: int| 0 <= j < options@.len() ==> #[trigger] options@[j].spec() == option_specs()[j],
            i <= options@.len(),
            forall|j: int| 0 <= j < i ==> option_specs()[j].key != key@,
        decreases options@.len() - i,
    {
        assert(options@[i as int].spec() == option_specs()[i as int]);
        if str_equal(key, options[i].key.as_str()) {
            return Ok(());
        }
        i = i + 1;
    }
    Err(ConfigError::InvalidKey(owned(key)))
}

/// A value that the option does not allow; carries the allowed values.
#[derive(Debug)]
pub enum InvalidValueError {
    ValidValues(Vec<String>),
}

/// `Debug` of a list of strings: `["a", "b"]`, each string quoted and escaped.
pub uninterp spec fn debug_strings(v: Seq<Seq<char>>) -> Seq<char>;

#[verifier::external_body]
fn debug_string_list(v: &Vec<String>) -> (r: String)
    ensures
        r@ == debug_strings(strings_view(v@)),
{
    format!("{:?}", v)
}

impl InvalidValueError {
    pub open spec fn valid_values(&self) -> Seq<Seq<char>> {
        match self {
            InvalidValueError::ValidValues(v) => strings_view(v@),
        }
    }

    /// The message of the error: "invalid values, valid values: [...]".
    pub fn to_string(&self) -> (r: String)
        ensures
            r@ == "invalid values, valid values: "@ + debug_strings(self.valid_values()),
    {
        match self {
            InvalidValueError::ValidValues(v) => {
                let mut r = owned("invalid values, valid values: ");
                let d = debug_string_list(v);
                r.append(d.as_str());
                r
            },
        }
    }
}

/// The values allowed for `key`, read from the known options.
fn allowed_values_of(key: &str) -> (r: Vec<String>)
    ensures
        strings_view(r@) == allowed_values_for(option_specs(), key@),
{
    let options = config_options();
    let mut i: usize = 0;
    assert(option_specs().skip(0) =~= option_specs());
    while i < options.len()
        invariant
            options@.len() == option_specs().len(),
            forall|j: int| 0 <= j < options@.len() ==> #[trigger] options@[j].spec() == option_specs()[j],
            i <= options@.len(),
            allowed_values_for(option_specs(), key@) == allowed_values_for(option_specs().skip(i as int), key@),
        decreases options@.len() - i,
    {
        assert(options@[i as int].spec() == option_specs()[i as int]);
        assert(option_specs().skip(i as int)[0] == option_specs()[i as int]);
        assert(option_specs().skip(i as int).skip(1) =~= option_specs().skip(i + 1));
        if str_equal(options[i].key.as_str(), key) {
            let v = options[i].allowed_values.clone();
            assert(v@ =~= options@[i as int].allowed_values@);
            return v;
        }
        i = i + 1;
    }
    let v: Vec<String> = Vec::new();
    assert(strings_view(v@) =~= seq![]);
    v
}

/// Accepts `value` for `key` when the option allows any value or lists this one.
pub fn validate_value(key: &str, value: &str) -> (r: Result<(), InvalidValueError>)
    ensures
        match r {
            Ok(_) => allowed_values_for(option_specs(), key@).len() == 0 || allowed_values_for(
                option_specs(),
                key@,
            ).contains(value@),
            Err(e) => allowed_values_for(option_specs(), key@).len() != 0 && !allowed_values_for(
                option_specs(),
                key@,
            ).contains(value@) && e.valid_values() == allowed_values_for(option_specs(), key@),
        },
{
    let valid_values = allowed_values_of(key);
    assert(strings_view(valid_values@) == allowed_values_for(option_specs(), key@));
    if valid_values.len() == 0 {
        return Ok(());
    }
    let mut j: usize = 0;
    while j < valid_values.len()
        invariant
            strings_view(valid_values@) == allowed_values_for(option_specs(), key@),
            j <= valid_values@.len(),
            forall|k: int| 0 <= k < j ==> valid_values@[k]@ != value@,
        decreases valid_values@.len() - j,
    {
        if str_equal(valid_values[j].as_str(), value) {
            assert(strings_view(valid_values@)[j as int] == value@);
            return Ok(());
        }
        j = j + 1;
    }
    assert(!strings_view(valid_values@).contains(value@));
    Err(InvalidValueError::ValidValues(valid_values))
}

/// The parts of `parts` joined by `sep`.
pub open spec fn join(parts: Seq<Seq<char>>, sep: Seq<char>) -> Seq<char>
    decreases parts.len(),
{
    if parts.len() == 0 {
        Seq::empty()
    } else if parts.len() == 1 {
        parts[0]
    } else {
        join(parts.drop_last(), sep) + sep + parts.last()
    }
}

/// The lines of the blank configuration for one option: its comment and supported
/// values as TOML comments, then `key = "default"` and a blank line.
pub open spec fn option_block(o: OptionSpec) -> Seq<char> {
    (if o.comment.len() > 0 {
        "# "@ + o.comment + "\n"@ + (if o.allowed_values.len() > 0 {
            "# Supported values: "@ + join(o.allowed_values, ", "@) + "\n"@
        } else {
            Seq::empty()
        })
    } else {
        Seq::empty()
    }) + o.key + " = \""@ + o.default_value + "\"\n\n"@
}

/// The text of the blank configuration for the options `opts`.
pub open spec fn blank_text(opts: Seq<OptionSpec>) -> Seq<char>
    decreases opts.len(),
{
    if opts.len() == 0 {
        Seq::empty()
    } else {
        blank_text(opts.drop_last()) + option_block(opts.last())
    }
}

/// The strings of `parts` joined by `sep`.
fn join_strings(parts: &Vec<String>, sep: &str) -> (r: String)
    ensures
        r@ == join(strings_view(parts@), sep@),
{
    let mut r = String::new();
    let mut i: usize = 0;
    while i < parts.len()
        invariant
            i <= parts@.len(),
            r@ == join(strings_view(parts@).take(i as int), sep@),
        decreases parts@.len() - i,
    {
        let ghost t = strings_view(parts@).take(i + 1);
        assert(t.drop_last() =~= strings_view(parts@).take(i as int));
        if i > 0 {
            r.append(sep);
        }
        r.append(parts[i].as_str());
        i = i + 1;
    }
    assert(strings_view(parts@).take(parts@.len() as int) =~= strings_view(parts@));
    r
}

/// The text of the blank configuration: every option with its comment, its
/// supported values and its default.
pub fn blank_config_text() -> (r: String)
    ensures
        r@ == blank_text(option_specs()),
{
    let options = config_options();
    let mut s = String::new();
    let mut i: usize = 0;
    while i < options.len()
        invariant
            options@.len() == option_specs().len(),
            forall|j: int| 0 <= j < options@.len() ==> #[trigger] options@[j].spec() == option_specs()[j],
            i <= options@.len(),
            s@ == blank_text(option_specs().take(i as int)),
        decreases options@.len() - i,
    {
        let option = &options[i];
        assert(option.spec() == option_specs()[i as int]);
        assert(option_specs().take(i + 1).drop_last() =~= option_specs().take(i as int));
        let ghost before = s@;
        if option.comment.unicode_len() > 0 {
            s.append("# ");
            s.append(option.comment.as_str());
            s.append("\n");
            if option.allowed_values.len() > 0 {
                s.append("# Supported values: ");
                let joined = join_strings(&option.allowed_values, ", ");
                s.append(joined.as_str());
                s.append("\n");
            }
        }
        s.append(option.key.as_str());
        s.append(" = \"");
        s.append(option.default_value.as_str());
        s.append("\"\n\n");
        assert(s@ =~= before + option_block(option_specs()[i as int]));
        i = i + 1;
    }
    assert(option_specs().take(options@.len() as int) =~= option_specs());
    s
}

/// The root table of a blank configuration: the blank text, parsed.
pub fn new_blank_root() -> (r: Result<toml_edit::Table, ConfigError>)
    ensures
        match r {
            Ok(t) => toml_parse_result(blank_text(option_specs())) == Some(toml_entries(t)) && deep_distinct(toml_entries(t)),
            Err(e) => toml_parse_result(blank_text(option_specs())) is None && e@ is Parse,
        },
{
    let text = blank_config_text();
    match toml_parse(text.as_str()) {
        Ok(t) => Ok(t),
        Err(e) => Err(ConfigError::Parse(e)),
    }
}

/// A configuration whose root is the table `t`.
pub fn new_config(t: toml_edit::Table) -> (c: FileConfig)
    requires
        config_valid(toml_entries(t)),
    ensures
        c.wf(),
        c.entries() == toml_entries(t),
{
    FileConfig { map: ConfigMap { root: t } }
}

/// A blank configuration.
pub fn new_blank_config() -> (r: Result<FileConfig, ConfigError>)
    ensures
        match r {
            Ok(c) => c.wf() && toml_parse_result(blank_text(option_specs())) == Some(c.entries()),
            Err(e) => toml_parse_result(blank_text(option_specs())) is None && e@ is Parse,
        },
{
    let root = new_blank_root()?;
    proof {
        lemma_deep_valid(toml_entries(root));
    }
    Ok(new_config(root))
}

/// A configuration read from the TOML text `s`.
pub fn new_from_string(s: &str) -> (r: Result<FileConfig, ConfigError>)
    ensures
        match r {
            Ok(c) => c.wf() && toml_parse_result(s@) == Some(c.entries()),
            Err(e) => toml_parse_result(s@) is None && e@ is Parse,
        },
{
    match toml_parse(s) {
        Ok(t) => {
            proof {
                lemma_deep_valid(toml_entries(t));
            }
            Ok(new_config(t))
        },
        Err(e) => Err(ConfigError::Parse(e)),
    }
}

/// The configuration made of the contents of the config file (a blank configuration
/// when there is none) and of the hosts file, whose table becomes `hosts`.
pub fn config_from_contents(config_text: Option<&str>, hosts_text: Option<&str>) -> (r: Result<FileConfig, ConfigError>)
    ensures
        match r {
            Ok(c) => c.wf() && exists|root: Entries| {
                &&& toml_parse_result(
                    match config_text {
                        Some(t) => t@,
                        None => blank_text(option_specs()),
                    },
                ) == Some(root)
                &&& match hosts_text {
                    None => c.entries() == root,
                    Some(h) => toml_parse_result(h@) matches Some(hs) && c.entries() == entries_insert(
                        root,
                        "hosts"@,
                        TomlNode::Table(hs),
                    ),
                }
            },
            Err(e) => e@ is Parse && (toml_parse_result(
                match config_text {
                    Some(t) => t@,
                    None => blank_text(option_specs()),
                },
            ) is None || (hosts_text matches Some(h) && toml_parse_result(h@) is None)),
        },
{
    let mut root = match config_text {
        None => new_blank_root()?,
        Some(t) => match toml_parse(t) {
            Ok(t) => t,
            Err(e) => return Err(ConfigError::Parse(e)),
        },
    };
    let ghost r0 = toml_entries(root);
    if let Some(h) = hosts_text {
        let hosts = match toml_parse(h) {
            Ok(t) => t,
            Err(e) => return Err(ConfigError::Parse(e)),
        };
        proof {
            lemma_hosts_valid(toml_entries(root), toml_entries(hosts));
        }
        toml_table_insert(&mut root, "hosts", TomlValue::Table(hosts));
    } else {
        proof {
            lemma_deep_valid(toml_entries(root));
        }
    }
    Ok(new_config(root))
}

} // verus!
