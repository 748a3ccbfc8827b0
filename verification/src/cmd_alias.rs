//! `oxide alias delete|set|list`: managing command shortcuts.
use vstd::prelude::*;

use std::io::Write;

use crate::colors::{AnsiStyle, ColorScheme};
use crate::config_alias::{AliasConfig, alias_expansion};
use crate::config_map::stored_node;
use crate::text::{concat2, concat3, starts_with_char};
use crate::toml::{entries_insert, entries_remove, toml_item_text, visible_keys};

verus! {

/// Delete an alias.
pub struct CmdAliasDelete {
    pub alias: String,
}

impl CmdAliasDelete {
    /// Deletes the alias and gives the message for standard error; fails with "no
    /// such alias" when the alias has no expansion.
    pub fn run(&self, aliases: &mut AliasConfig, cs: &ColorScheme) -> (r: Result<String, String>)
        requires
            old(aliases).wf(),
        ensures
            final(aliases).wf(),
            match r {
                Ok(msg) => alias_expansion(old(aliases).entries(), self.alias@).len() > 0 && final(aliases).entries()
                    == entries_remove(old(aliases).entries(), self.alias@) && msg@ == cs.styled(AnsiStyle::Red, "✔"@)
                    + " Deleted alias "@ + self.alias@ + "; was "@ + alias_expansion(old(aliases).entries(), self.alias@),
                Err(msg) => alias_expansion(old(aliases).entries(), self.alias@).len() == 0 && *final(aliases)
                    == *old(aliases) && msg@ == "no such alias "@ + self.alias@,
            },
    {
        let (expansion, ok) = aliases.get(self.alias.as_str());
        if !ok {
            return Err(concat2("no such alias ", self.alias.as_str()));
        }
        let _ = aliases.delete(self.alias.as_str());
        let icon = cs.success_icon_with_color(AnsiStyle::Red);
        let msg = concat3(icon.as_str(), " Deleted alias ", self.alias.as_str());
        let msg = concat3(msg.as_str(), "; was ", expansion.as_str());
        Ok(msg)
    }
}

/// Create a shortcut for an oxide command.
pub struct CmdAliasSet {
    pub alias: String,
    /// The expansion; `-` reads it from standard input.
    pub expansion: String,
    /// Declare an alias to be passed through a shell interpreter.
    pub shell: bool,
}

/// The expansion as stored: a shell alias starts with `!`.
pub open spec fn stored_expansion(expansion: Seq<char>, shell: bool) -> Seq<char> {
    if shell && !(expansion.len() > 0 && expansion[0] == '!') {
        seq!['!'] + expansion
    } else {
        expansion
    }
}

/// The expansion is run by the shell.
pub open spec fn is_shell_expansion(e: Seq<char>) -> bool {
    e.len() > 0 && e[0] == '!'
}

/// What setting an alias gives: the messages for standard output, then the outcome.
pub struct AliasSetOutcome {
    pub messages: Vec<String>,
    pub result: Result<(), String>,
}

impl CmdAliasSet {
    /// Sets the alias to `expansion` (the expansion as read). `alias_is_command` and
    /// `expansion_is_command` say whether the command line parses the alias and the
    /// expansion. The first message announces the alias; an alias that is a command,
    /// or a non-shell expansion that is not a command line, is refused and the
    /// aliases stay as they were; otherwise the alias is stored and a second message
    /// reports the change.
    pub fn run(
        &self,
        expansion: &str,
        aliases: &mut AliasConfig,
        cs: &ColorScheme,
        alias_is_command: bool,
        expansion_is_command: bool,
    ) -> (r: AliasSetOutcome)
        requires
            old(aliases).wf(),
        ensures
            final(aliases).wf(),
            ({
                let e = stored_expansion(expansion@, self.shell);
                let msgs = r.messages@;
                let announce = "- Adding alias for "@ + cs.styled(AnsiStyle::Bold, self.alias@) + ": "@ + cs.styled(
                    AnsiStyle::Bold,
                    e,
                );
                let old_e = alias_expansion(old(aliases).entries(), self.alias@);
                let done = if old_e.len() > 0 {
                    cs.styled(AnsiStyle::Green, "✔"@) + " Changed alias "@ + cs.styled(AnsiStyle::Bold, self.alias@)
                        + " from "@ + cs.styled(AnsiStyle::Bold, old_e) + " to "@ + cs.styled(AnsiStyle::Bold, e)
                } else {
                    cs.styled(AnsiStyle::Green, "✔"@) + " Added alias."@
                };
                &&& msgs.len() > 0 && msgs[0]@ == announce
                &&& if alias_is_command {
                    &&& r.result is Err
                    &&& r.result->Err_0@ == "could not create alias: "@ + self.alias@ + " is already an oxide command"@
                    &&& *final(aliases) == *old(aliases)
                    &&& msgs.len() == 1
                } else if !is_shell_expansion(e) && !expansion_is_command {
                    &&& r.result is Err
                    &&& r.result->Err_0@ == "could not create alias: "@ + e + " does not correspond to an oxide command"@
                    &&& *final(aliases) == *old(aliases)
                    &&& msgs.len() == 1
                } else {
                    &&& r.result is Ok
                    &&& final(aliases).entries() == entries_insert(old(aliases).entries(), self.alias@, stored_node(e))
                    &&& msgs.len() == 2
                    &&& msgs[1]@ == done
                }
            }),
    {
        let mut e = crate::text::owned(expansion);
        if self.shell && !starts_with_char(e.as_str(), '!') {
            e = concat2("!", e.as_str());
            proof {
                reveal_strlit("!");
                assert(e@ =~= seq!['!'] + expansion@);
            }
        }
        let is_shell = starts_with_char(e.as_str(), '!');
        let mut messages: Vec<String> = Vec::new();
        let a = cs.bold(self.alias.as_str());
        let b = cs.bold(e.as_str());
        let m = concat3("- Adding alias for ", a.as_str(), ": ");
        messages.push(concat2(m.as_str(), b.as_str()));
        if alias_is_command {
            let m = concat3("could not create alias: ", self.alias.as_str(), " is already an oxide command");
            return AliasSetOutcome { messages, result: Err(m) };
        }
        if !is_shell && !expansion_is_command {
            let m = concat3("could not create alias: ", e.as_str(), " does not correspond to an oxide command");
            return AliasSetOutcome { messages, result: Err(m) };
        }
        let icon = cs.success_icon();
        let (old_expansion, ok) = aliases.get(self.alias.as_str());
        let success = if ok {
            let a = cs.bold(self.alias.as_str());
            let o = cs.bold(old_expansion.as_str());
            let n = cs.bold(e.as_str());
            let m = concat3(icon.as_str(), " Changed alias ", a.as_str());
            let m = concat3(m.as_str(), " from ", o.as_str());
            concat3(m.as_str(), " to ", n.as_str())
        } else {
            concat2(icon.as_str(), " Added alias.")
        };
        let _ = aliases.add(self.alias.as_str(), e.as_str());
        messages.push(success);
        AliasSetOutcome { messages, result: Ok(()) }
    }
}

/// What `tabwriter` prints for `text`: the cells of each run of lines that hold a
/// tab aligned in columns.
pub uninterp spec fn tab_aligned(text: Seq<char>) -> Seq<char>;

/// `tabwriter::TabWriter` (default settings) fed with `text` and flushed.
#[verifier::external_body]
pub(crate) fn tab_align(text: &str) -> (r: String)
    ensures
        r@ == tab_aligned(text@),
{
    let mut tw = tabwriter::TabWriter::new(Vec::new());
    let _ = tw.write_all(text.as_bytes());
    let bytes = match tw.into_inner() {
        Ok(v) => v,
        Err(_) => Vec::new(),
    };
    String::from_utf8_lossy(&bytes).into_owned()
}

/// List your aliases.
pub struct CmdAliasList {}

/// The lines `alias:\texpansion` of the aliases `keys`, with the expansions' texts.
pub open spec fn alias_lines(keys: Seq<Seq<char>>, texts: Seq<Seq<char>>) -> Seq<char>
    decreases keys.len(),
{
    if keys.len() == 0 {
        Seq::empty()
    } else {
        alias_lines(keys.drop_last(), texts.drop_last()) + keys.last() + ":\t"@ + texts.last() + "\n"@
    }
}

/// What listing the aliases prints: on standard output, and on standard error.
pub struct AliasListOutput {
    pub out: String,
    pub err: String,
}

impl CmdAliasList {
    /// With no alias, only a note on a terminal's standard error; else the aliases
    /// and their expansions, aligned in two columns.
    pub fn run(&self, aliases: &AliasConfig, is_terminal: bool) -> (r: AliasListOutput)
        requires
            aliases.wf(),
        ensures
            ({
                let keys = visible_keys(aliases.entries());
                if keys.len() == 0 {
                    r.out@.len() == 0 && r.err@ == (if is_terminal { "no aliases configured\n"@ } else { Seq::empty() })
                } else {
                    r.err@.len() == 0 && r.out@ == tab_aligned(
                        alias_lines(keys, keys.map_values(|k: Seq<char>| toml_item_text(aliases.map.root, k))),
                    ) + "\n"@
                }
            }),
    {
        let list = aliases.list();
        if list.len() == 0 {
            let err = if is_terminal {
                crate::text::owned("no aliases configured\n")
            } else {
                String::new()
            };
            return AliasListOutput { out: String::new(), err };
        }
        let ghost keys = visible_keys(aliases.entries());
        let ghost texts = keys.map_values(|k: Seq<char>| toml_item_text(aliases.map.root, k));
        let mut text = String::new();
        let mut i: usize = 0;
        proof {
            assert(keys.take(0) =~= Seq::<Seq<char>>::empty());
        }
        while i < list.len()
            invariant
                list@.len() == keys.len(),
                texts.len() == keys.len(),
                forall|j: int| 0 <= j < list@.len() ==> {
                    &&& (#[trigger] list@[j]).0@ == keys[j]
                    &&& list@[j].1@ == texts[j]
                },
                i <= list@.len(),
                text@ == alias_lines(keys.take(i as int), texts.take(i as int)),
            decreases list@.len() - i,
        {
            let line = concat3(list[i].0.as_str(), ":\t", list[i].1.as_str());
            text.append(line.as_str());
            text.append("\n");
            proof {
                assert(keys.take(i + 1).drop_last() =~= keys.take(i as int));
                assert(texts.take(i + 1).drop_last() =~= texts.take(i as int));
            }
            i = i + 1;
        }
        proof {
            assert(keys.take(list@.len() as int) =~= keys);
            assert(texts.take(list@.len() as int) =~= texts);
        }
        let table = tab_align(text.as_str());
        AliasListOutput { out: concat2(table.as_str(), "\n"), err: String::new() }
    }
}


/// An alias set with `--shell`, or whose expansion starts with `!`, is stored as a
/// shell alias; an expansion that already starts with `!` is stored as given.
pub proof fn law_shell_flag(expansion: Seq<char>, shell: bool)
    ensures
        is_shell_expansion(stored_expansion(expansion, shell)) == (shell || is_shell_expansion(expansion)),
        is_shell_expansion(expansion) ==> stored_expansion(expansion, shell) == expansion,
        !shell ==> stored_expansion(expansion, shell) == expansion,
{
}

} // verus!
