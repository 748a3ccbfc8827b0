//! Command aliases: short names that expand to oxide commands or shell commands.
use vstd::prelude::*;

use crate::config_map::{ConfigMap, stored_node, string_value};
use crate::error::{ConfigErr, ConfigError};
use crate::text::{
    decimal, decimal_text, digit_char, has_prefix, has_substring, occurs_at, owned, replace, replace_all, strip_all_prefix,
};
use crate::toml::{
    Entries, entries_insert, entries_remove, keys_distinct, lemma_insert, lemma_remove, toml_entries, toml_item_render, toml_item_text,
    toml_table_keys, visible_keys, lemma_visible_keys,
};

verus! {

/// The expansion stored for `alias`; empty when there is none or it is not a string.
pub open spec fn alias_expansion(es: Entries, alias: Seq<char>) -> Seq<char> {
    match string_value(es, alias) {
        Ok(v) => v,
        Err(_) => Seq::empty(),
    }
}

/// The aliases of a configuration.
pub struct AliasConfig {
    pub map: ConfigMap,
}

impl AliasConfig {
    pub open spec fn entries(&self) -> Entries {
        self.map.entries()
    }

    pub open spec fn wf(&self) -> bool {
        self.map.wf()
    }

    /// The expansion of `alias`, and whether there is one (a non-empty expansion).
    pub fn get(&self, alias: &str) -> (r: (String, bool))
        requires
            self.wf(),
        ensures
            r.0@ == alias_expansion(self.entries(), alias@),
            r.1 == (r.0@.len() > 0),
    {
        if self.map.is_empty() {
            proof {
                lemma_visible_keys(self.entries(), alias@);
            }
            return (String::new(), false);
        }
        let value = match self.map.get_string_value(alias) {
            Ok(value) => value,
            Err(_) => String::new(),
        };
        let ok = value.unicode_len() > 0;
        (value, ok)
    }

    /// Stores `expansion` under `alias`.
    pub fn add(&mut self, alias: &str, expansion: &str) -> (r: Result<(), ConfigError>)
        requires
            old(self).wf(),
        ensures
            r is Ok,
            final(self).wf(),
            final(self).entries() == entries_insert(old(self).entries(), alias@, stored_node(expansion@)),
    {
        self.map.set_string_value(alias, expansion);
        Ok(())
    }

    /// Drops `alias`.
    pub fn delete(&mut self, alias: &str) -> (r: Result<(), ConfigError>)
        requires
            old(self).wf(),
        ensures
            r is Ok,
            final(self).wf(),
            final(self).entries() == entries_remove(old(self).entries(), alias@),
    {
        self.map.remove_entry(alias);
        Ok(())
    }

    /// Every alias with the text of its stored expansion, in the table's order.
    pub fn list(&self) -> (r: Vec<(String, String)>)
        requires
            self.wf(),
        ensures
            r@.len() == visible_keys(self.entries()).len(),
            forall|i: int| 0 <= i < r@.len() ==> {
                &&& (#[trigger] r@[i]).0@ == visible_keys(self.entries())[i]
                &&& r@[i].1@ == toml_item_text(self.map.root, visible_keys(self.entries())[i])
            },
    {
        let keys = toml_table_keys(&self.map.root);
        let mut list: Vec<(String, String)> = Vec::new();
        let mut i: usize = 0;
        while i < keys.len()
            invariant
                self.wf(),
                keys@.len() == visible_keys(self.entries()).len(),
                forall|j: int| 0 <= j < keys@.len() ==> #[trigger] keys@[j]@ == visible_keys(self.entries())[j],
                i <= keys@.len(),
                list@.len() == i,
                forall|j: int| 0 <= j < i ==> {
                    &&& (#[trigger] list@[j]).0@ == visible_keys(self.entries())[j]
                    &&& list@[j].1@ == toml_item_text(self.map.root, visible_keys(self.entries())[j])
                },
            decreases keys@.len() - i,
        {
            let key = &keys[i];
            proof {
                assert(visible_keys(self.entries()).contains(key@));
                lemma_visible_keys(self.entries(), key@);
            }
            let text = toml_item_render(&self.map.root, key.as_str());
            list.push((owned(key.as_str()), text));
            i = i + 1;
        }
        list
    }
}

/// `shlex::split`: the words of `s` under POSIX shell quoting, `None` when the
/// quoting is unbalanced.
pub uninterp spec fn shlex_words(s: Seq<char>) -> Option<Seq<Seq<char>>>;

/// The views of a list of strings.
pub open spec fn words_view(v: Seq<String>) -> Seq<Seq<char>> {
    v.map_values(|s: String| s@)
}

/// `shlex::split`.
#[verifier::external_body]
pub(crate) fn shlex_split(s: &str) -> (r: Option<Vec<String>>)
    ensures
        match r {
            Some(v) => shlex_words(s@) == Some(words_view(v@)),
            None => shlex_words(s@) is None,
        },
{
    shlex::split(s)
}

/// The expansion and the arguments left over after the first `i` extra arguments
/// were placed: an argument replaces its placeholder `$k` (`k` counting from 1) while
/// the expansion holds a `$`; otherwise it is kept to be appended.
pub open spec fn substitute(expansion: Seq<char>, args: Seq<Seq<char>>, i: nat) -> (Seq<char>, Seq<Seq<char>>)
    decreases i,
{
    if i == 0 {
        (expansion, seq![])
    } else {
        let (e, extra) = substitute(expansion, args, (i - 1) as nat);
        if !has_substring(e, "$"@) {
            (e, extra.push(args[i - 1]))
        } else {
            (replace_all(e, "$"@ + decimal(i), args[i - 1]), extra)
        }
    }
}

/// What the command line `args` (program name first) expands to under the aliases
/// `aliases`, and whether it is a shell command.
pub open spec fn expand_args(aliases: Entries, args: Seq<Seq<char>>) -> Result<(Seq<Seq<char>>, bool), ConfigErr> {
    if args.len() < 2 {
        Ok((seq![], false))
    } else {
        let expanded = args.skip(1);
        let expansion = alias_expansion(aliases, args[1]);
        if expansion.len() == 0 {
            Ok((expanded, false))
        } else {
            let extra = args.skip(2);
            if expansion[0] == '!' {
                let cmd = seq!["sh"@, "-c"@, strip_all_prefix(expansion, "!"@)];
                Ok((if extra.len() > 0 { cmd + seq!["--"@] + extra } else { cmd }, true))
            } else {
                let (e, rest) = substitute(expansion, extra, extra.len());
                match shlex_words(e) {
                    None => Err(ConfigErr::AliasSplit(e)),
                    Some(words) => Ok((words + rest, false)),
                }
            }
        }
    }
}

/// Appends a copy of `s` to `v`.
pub(crate) fn push_str(v: &mut Vec<String>, s: &str)
    ensures
        words_view(final(v)@) == words_view(old(v)@).push(s@),
{
    let ghost before = v@;
    v.push(owned(s));
    assert forall|k: int| 0 <= k < before.len() implies #[trigger] v@[k] == before[k] by {}
    assert(words_view(v@) =~= words_view(before).push(s@));
}

/// The strings of `v` from position `from` on.
fn tail(v: &Vec<String>, from: usize) -> (r: Vec<String>)
    requires
        from <= v@.len(),
    ensures
        words_view(r@) == words_view(v@).skip(from as int),
{
    let mut r: Vec<String> = Vec::new();
    let mut i = from;
    while i < v.len()
        invariant
            from <= i <= v@.len(),
            words_view(r@) == words_view(v@).subrange(from as int, i as int),
        decreases v@.len() - i,
    {
        push_str(&mut r, v[i].as_str());
        assert(words_view(r@) =~= words_view(v@).subrange(from as int, i + 1));
        i = i + 1;
    }
    assert(words_view(v@).subrange(from as int, v@.len() as int) =~= words_view(v@).skip(from as int));
    r
}

impl AliasConfig {
    /// Expands the command line `args` (program name first) when its first argument
    /// is an alias. Returns the new arguments (without the program name) and whether
    /// they form a shell command (`sh -c ...`).
    pub fn expand(&self, args: &Vec<String>) -> (r: Result<(Vec<String>, bool), ConfigError>)
        requires
            self.wf(),
        ensures
            match r {
                Ok((v, shell)) => expand_args(self.entries(), words_view(args@)) == Ok::<(Seq<Seq<char>>, bool), ConfigErr>(
                    (words_view(v@), shell),
                ),
                Err(e) => expand_args(self.entries(), words_view(args@)) == Err::<(Seq<Seq<char>>, bool), ConfigErr>(e@),
            },
    {
        let ghost a = words_view(args@);
        if args.len() < 2 {
            let v: Vec<String> = Vec::new();
            assert(words_view(v@) =~= seq![]);
            return Ok((v, false));
        }
        let expanded = tail(args, 1);
        let (expansion, ok) = self.get(args[1].as_str());
        if !ok {
            return Ok((expanded, false));
        }
        let additional = tail(args, 2);
        if crate::text::starts_with_char(expansion.as_str(), '!') {
            let mut cmd: Vec<String> = Vec::new();
            proof {
                reveal_strlit("!");
            }
            push_str(&mut cmd, "sh");
            push_str(&mut cmd, "-c");
            let stripped = crate::text::trim_start_matches(expansion.as_str(), "!");
            push_str(&mut cmd, stripped.as_str());
            assert(words_view(cmd@) =~= seq!["sh"@, "-c"@, strip_all_prefix(expansion@, "!"@)]);
            if additional.len() > 0 {
                push_str(&mut cmd, "--");
                let ghost before = words_view(cmd@);
                let mut j: usize = 0;
                while j < additional.len()
                    invariant
                        j <= additional@.len(),
                        words_view(cmd@) == before + words_view(additional@).take(j as int),
                    decreases additional@.len() - j,
                {
                    push_str(&mut cmd, additional[j].as_str());
                    assert(words_view(cmd@) =~= before + words_view(additional@).take(j + 1));
                    j = j + 1;
                }
                assert(words_view(additional@).take(additional@.len() as int) =~= words_view(additional@));
                assert(before =~= seq!["sh"@, "-c"@, strip_all_prefix(expansion@, "!"@)] + seq!["--"@]);
            }
            return Ok((cmd, true));
        }
        let mut expansion = expansion;
        let mut extra_args: Vec<String> = Vec::new();
        let ghost e0 = expansion@;
        let ghost extra = words_view(additional@);
        let mut i: usize = 0;
        assert(words_view(extra_args@) =~= seq![]);
        while i < additional.len()
            invariant
                extra == words_view(additional@),
                i <= additional@.len(),
                substitute(e0, extra, i as nat) == (expansion@, words_view(extra_args@)),
            decreases additional@.len() - i,
        {
            if !crate::text::contains(expansion.as_str(), "$") {
                push_str(&mut extra_args, additional[i].as_str());
                assert(words_view(extra_args@) =~= substitute(e0, extra, i as nat).1.push(extra[i as int]));
            } else {
                let n = decimal_text(i + 1);
                let mut placeholder = owned("$");
                placeholder.append(n.as_str());
                expansion = replace(expansion.as_str(), placeholder.as_str(), additional[i].as_str());
            }
            i = i + 1;
        }
        match shlex_split(expansion.as_str()) {
            None => Err(ConfigError::AliasSplit(expansion)),
            Some(words) => {
                let mut new_args = words;
                let ghost w = words_view(new_args@);
                let mut j: usize = 0;
                while j < extra_args.len()
                    invariant
                        j <= extra_args@.len(),
                        words_view(new_args@) == w + words_view(extra_args@).take(j as int),
                    decreases extra_args@.len() - j,
                {
                    push_str(&mut new_args, extra_args[j].as_str());
                    assert(words_view(new_args@) =~= w + words_view(extra_args@).take(j + 1));
                    j = j + 1;
                }
                assert(words_view(extra_args@).take(extra_args@.len() as int) =~= words_view(extra_args@));
                Ok((new_args, false))
            },
        }
    }
}


/// After an alias is added, looking it up gives back its expansion.
pub proof fn law_add_then_get(es: Entries, alias: Seq<char>, expansion: Seq<char>)
    requires
        keys_distinct(es),
    ensures
        alias_expansion(entries_insert(es, alias, stored_node(expansion)), alias) == expansion,
{
    lemma_insert(es, alias, stored_node(expansion));
}

/// Adding or deleting an alias leaves the other aliases as they were.
pub proof fn law_aliases_independent(es: Entries, alias: Seq<char>, expansion: Seq<char>, other: Seq<char>)
    requires
        keys_distinct(es),
        other != alias,
    ensures
        alias_expansion(entries_insert(es, alias, stored_node(expansion)), other) == alias_expansion(es, other),
        alias_expansion(entries_remove(es, alias), other) == alias_expansion(es, other),
{
    lemma_insert(es, alias, stored_node(expansion));
    lemma_remove(es, alias);
}

/// After an alias is deleted, it has no expansion.
pub proof fn law_delete_then_get(es: Entries, alias: Seq<char>)
    requires
        keys_distinct(es),
    ensures
        alias_expansion(entries_remove(es, alias), alias).len() == 0,
{
    lemma_remove(es, alias);
}

/// An expansion without a `$` takes no argument into itself: every argument is
/// left over, in order.
pub proof fn lemma_substitute_no_placeholder(expansion: Seq<char>, args: Seq<Seq<char>>, i: nat)
    requires
        !has_substring(expansion, "$"@),
        i <= args.len(),
    ensures
        substitute(expansion, args, i) == (expansion, args.take(i as int)),
    decreases i,
{
    if i > 0 {
        lemma_substitute_no_placeholder(expansion, args, (i - 1) as nat);
        assert(args.take(i - 1).push(args[i - 1]) =~= args.take(i as int));
    }
}

/// A command line that does not start with an alias is left as it is, without the
/// program name.
pub proof fn law_expand_not_alias(aliases: Entries, args: Seq<Seq<char>>)
    requires
        args.len() >= 2,
        alias_expansion(aliases, args[1]).len() == 0,
    ensures
        expand_args(aliases, args) == Ok::<(Seq<Seq<char>>, bool), ConfigErr>((args.skip(1), false)),
{
}

/// An alias whose expansion has no placeholder expands to the words of the
/// expansion followed by the arguments given after the alias.
pub proof fn law_expand_appends_arguments(aliases: Entries, args: Seq<Seq<char>>)
    requires
        args.len() >= 2,
        alias_expansion(aliases, args[1]).len() > 0,
        alias_expansion(aliases, args[1])[0] != '!',
        !has_substring(alias_expansion(aliases, args[1]), "$"@),
        shlex_words(alias_expansion(aliases, args[1])) is Some,
    ensures
        expand_args(aliases, args) == Ok::<(Seq<Seq<char>>, bool), ConfigErr>(
            (shlex_words(alias_expansion(aliases, args[1]))->0 + args.skip(2), false),
        ),
{
    let extra = args.skip(2);
    lemma_substitute_no_placeholder(alias_expansion(aliases, args[1]), extra, extra.len());
    assert(extra.take(extra.len() as int) =~= extra);
}

/// A shell alias runs `sh -c` with the expansion (without its `!`); the arguments
/// given after the alias follow `--`.
pub proof fn law_expand_shell_alias(aliases: Entries, args: Seq<Seq<char>>)
    requires
        args.len() >= 2,
        alias_expansion(aliases, args[1]).len() > 0,
        alias_expansion(aliases, args[1])[0] == '!',
    ensures
        expand_args(aliases, args) == Ok::<(Seq<Seq<char>>, bool), ConfigErr>(
            (
                if args.len() > 2 {
                    seq!["sh"@, "-c"@, strip_all_prefix(alias_expansion(aliases, args[1]), "!"@), "--"@] + args.skip(2)
                } else {
                    seq!["sh"@, "-c"@, strip_all_prefix(alias_expansion(aliases, args[1]), "!"@)]
                },
                true,
            ),
        ),
{
    let x = strip_all_prefix(alias_expansion(aliases, args[1]), "!"@);
    assert(seq!["sh"@, "-c"@, x] + seq!["--"@] =~= seq!["sh"@, "-c"@, x, "--"@]);
}

/// `$` does not occur in `s`.
pub open spec fn no_dollar(s: Seq<char>) -> bool {
    forall|j: int| 0 <= j < s.len() ==> s[j] != '$'
}

/// A text without `$` holds no `$` as a substring.
proof fn lemma_no_dollar_substring(s: Seq<char>)
    requires
        no_dollar(s),
    ensures
        !has_substring(s, "$"@),
{
    reveal_strlit("$");
    if has_substring(s, "$"@) {
        let i = choose|i: int| occurs_at(s, "$"@, i);
        assert(s.subrange(i, i + 1)[0] == s[i]);
    }
}

/// Replacing a text that starts with `$` passes over a stretch without `$`.
proof fn lemma_replace_passes_plain(pre: Seq<char>, rest: Seq<char>, from: Seq<char>, to: Seq<char>)
    requires
        from.len() > 0,
        from[0] == '$',
        no_dollar(pre),
    ensures
        replace_all(pre + rest, from, to) == pre + replace_all(rest, from, to),
    decreases pre.len(),
{
    let s = pre + rest;
    if pre.len() == 0 {
        assert(s =~= rest);
    } else {
        if has_prefix(s, from) {
            assert(s.take(from.len() as int)[0] == s[0]);
        }
        lemma_replace_passes_plain(pre.skip(1), rest, from, to);
        assert(s.skip(1) =~= pre.skip(1) + rest);
        assert(seq![s[0]] + (pre.skip(1) + replace_all(rest, from, to)) =~= pre + replace_all(rest, from, to));
    }
}

/// After the first `k - 1` arguments, an expansion whose one `$` starts the
/// placeholder `$k` (`k` from 1 to 9) is unchanged and has taken no argument.
proof fn lemma_substitute_before_placeholder(pre: Seq<char>, post: Seq<char>, args: Seq<Seq<char>>, k: nat, i: nat)
    requires
        1 <= k <= 9,
        i < k,
        no_dollar(pre),
        no_dollar(post),
    ensures
        substitute(pre + seq!['$', digit_char(k)] + post, args, i) == (pre + seq!['$', digit_char(k)] + post, Seq::<Seq<char>>::empty()),
    decreases i,
{
    let e = pre + seq!['$', digit_char(k)] + post;
    if i > 0 {
        lemma_substitute_before_placeholder(pre, post, args, k, (i - 1) as nat);
        reveal_strlit("$");
        assert(occurs_at(e, "$"@, pre.len() as int)) by {
            assert(e.subrange(pre.len() as int, pre.len() + 1int) =~= "$"@);
        }
        let from = "$"@ + decimal(i);
        assert(decimal(i) == seq![digit_char(i)]);
        assert(digit_char(i) != digit_char(k));
        let tail = seq!['$', digit_char(k)] + post;
        assert(e =~= pre + tail);
        lemma_replace_passes_plain(pre, tail, from, args[i - 1]);
        assert(!has_prefix(tail, from)) by {
            assert(tail.take(2)[1] != from[1]);
        }
        assert(no_dollar(tail.skip(1))) by {
            assert forall|j: int| 0 <= j < tail.skip(1).len() implies tail.skip(1)[j] != '$' by {
                if j > 0 {
                    assert(tail.skip(1)[j] == post[j - 1]);
                }
            }
        }
        lemma_replace_passes_plain(tail.skip(1), Seq::empty(), from, args[i - 1]);
        assert(tail.skip(1) + Seq::<char>::empty() =~= tail.skip(1));
        assert(replace_all(tail, from, args[i - 1]) == seq![tail[0]] + replace_all(tail.skip(1), from, args[i - 1]));
        assert(seq![tail[0]] + tail.skip(1) =~= tail);
    }
}

/// Once the expansion holds no `$`, every further argument is left over, in order.
proof fn lemma_substitute_after_placeholder(expansion: Seq<char>, args: Seq<Seq<char>>, e: Seq<char>, k: nat, i: nat)
    requires
        k <= i <= args.len(),
        substitute(expansion, args, k) == (e, Seq::<Seq<char>>::empty()),
        no_dollar(e),
    ensures
        substitute(expansion, args, i) == (e, args.subrange(k as int, i as int)),
    decreases i,
{
    if i > k {
        lemma_substitute_after_placeholder(expansion, args, e, k, (i - 1) as nat);
        lemma_no_dollar_substring(e);
        assert(args.subrange(k as int, i - 1).push(args[i - 1]) =~= args.subrange(k as int, i as int));
    } else {
        assert(args.subrange(k as int, k as int) =~= Seq::<Seq<char>>::empty());
    }
}

/// At the `k`-th argument, the placeholder `$k` (the one `$` of the expansion) is
/// replaced by that argument.
proof fn lemma_substitute_at_placeholder(pre: Seq<char>, post: Seq<char>, extra: Seq<Seq<char>>, k: nat)
    requires
        1 <= k <= 9,
        extra.len() >= k,
        no_dollar(pre),
        no_dollar(post),
    ensures
        substitute(pre + seq!['$', digit_char(k)] + post, extra, k) == (pre + extra[k - 1] + post, Seq::<Seq<char>>::empty()),
{
    reveal_strlit("$");
    let expansion = pre + seq!['$', digit_char(k)] + post;
    let a = extra[k - 1];
    lemma_substitute_before_placeholder(pre, post, extra, k, (k - 1) as nat);
    assert(occurs_at(expansion, "$"@, pre.len() as int)) by {
        assert(expansion.subrange(pre.len() as int, pre.len() + 1int) =~= "$"@);
    }
    let from = "$"@ + decimal(k);
    assert(decimal(k) == seq![digit_char(k)]);
    assert(from =~= seq!['$', digit_char(k)]);
    let tail = seq!['$', digit_char(k)] + post;
    assert(expansion =~= pre + tail);
    lemma_replace_passes_plain(pre, tail, from, a);
    assert(tail.take(2) =~= from);
    assert(tail.skip(2) =~= post);
    lemma_replace_passes_plain(post, Seq::empty(), from, a);
    assert(post + Seq::<char>::empty() =~= post);
    assert(replace_all(tail, from, a) == a + post);
    assert(replace_all(expansion, from, a) =~= pre + a + post);
}

/// An alias (not a shell command) whose expansion holds the placeholder `$k`, `k`
/// from 1 to 9, and no other `$`, given at least `k` arguments, expands to the words
/// of the expansion with the `k`-th argument standing where `$k` stood; the
/// arguments before it are used up, and those after it (when the `k`-th holds no
/// `$`) are appended.
pub proof fn law_expand_placeholder(aliases: Entries, args: Seq<Seq<char>>, pre: Seq<char>, post: Seq<char>, k: nat)
    requires
        1 <= k <= 9,
        args.len() >= k + 2,
        alias_expansion(aliases, args[1]) == pre + seq!['$', digit_char(k)] + post,
        alias_expansion(aliases, args[1])[0] != '!',
        no_dollar(pre),
        no_dollar(post),
        args.len() == k + 2 || no_dollar(args[k + 1int]),
    ensures
        expand_args(aliases, args) == match shlex_words(pre + args[k + 1int] + post) {
            None => Err::<(Seq<Seq<char>>, bool), ConfigErr>(ConfigErr::AliasSplit(pre + args[k + 1int] + post)),
            Some(w) => Ok((w + args.skip(k + 2int), false)),
        },
{
    let expansion = pre + seq!['$', digit_char(k)] + post;
    let extra = args.skip(2);
    let a = extra[k - 1];
    assert(a == args[k + 1int]);
    let e = pre + a + post;
    lemma_substitute_at_placeholder(pre, post, extra, k);
    let rest = substitute(expansion, extra, extra.len()).1;
    assert(substitute(expansion, extra, extra.len()).0 == e && rest == args.skip(k + 2int)) by {
        if args.len() == k + 2 {
            assert(args.skip(k + 2int) =~= Seq::<Seq<char>>::empty());
        } else {
            assert(no_dollar(e)) by {
                assert forall|j: int| 0 <= j < e.len() implies e[j] != '$' by {
                    if j < pre.len() {
                    } else if j < pre.len() + a.len() {
                        assert(e[j] == a[j - pre.len()]);
                    } else {
                        assert(e[j] == post[j - pre.len() - a.len()]);
                    }
                }
            }
            lemma_substitute_after_placeholder(expansion, extra, e, k, extra.len());
            assert(extra.subrange(k as int, extra.len() as int) =~= args.skip(k + 2int));
        }
    }
}

} // verus!
