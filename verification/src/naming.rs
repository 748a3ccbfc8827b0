//! The naming rules of the generated commands: singular and plural resource names,
//! parameter names and flags.
use vstd::prelude::*;

use crate::text::{
    concat2, has_suffix, owned, replace, replace_all, str_equal, strip_all_suffix, strip_suffix, trim_end_matches,
    trim_start_matches, strip_all_prefix, ends_with, ends_with_char,
};

verus! {

/// `s` without one trailing `s`.
pub open spec fn singular_of(s: Seq<char>) -> Seq<char> {
    if has_suffix(s, "s"@) {
        s.take(s.len() - 1)
    } else {
        s
    }
}

/// The plural of the singular of `s`: `es` after an `s`, `ies` in place of trailing
/// `y`s, else `s`.
pub open spec fn plural_of(s: Seq<char>) -> Seq<char> {
    let b = singular_of(s);
    if b.len() > 0 && b.last() == 's' {
        b + "es"@
    } else if b.len() > 0 && b.last() == 'y' {
        strip_all_suffix(b, "y"@) + "ies"@
    } else {
        b + "s"@
    }
}

/// The singular of a (plural) resource name.
pub fn singular(s: &str) -> (r: String)
    ensures
        r@ == singular_of(s@),
{
    proof {
        reveal_strlit("s");
    }
    match strip_suffix(s, "s") {
        Some(b) => b,
        None => owned(s),
    }
}

/// The plural of a resource name.
pub fn plural(s: &str) -> (r: String)
    ensures
        r@ == plural_of(s@),
{
    proof {
        reveal_strlit("y");
    }
    let s = singular(s);
    if ends_with_char(s.as_str(), 's') {
        return concat2(s.as_str(), "es");
    } else if ends_with_char(s.as_str(), 'y') {
        let t = trim_end_matches(s.as_str(), "y");
        return concat2(t.as_str(), "ies");
    }
    concat2(s.as_str(), "s")
}

/// Parameters that get no default from the environment: the resource itself, its
/// project and organization, and names.
pub fn skip_defaults(n: &str, tag: &str) -> (r: bool)
    ensures
        r == (n@ == singular_of(tag@) || n@ == "project"@ || n@ == "organization"@ || n@ == "project_name"@ || n@
            == "organization_name"@ || n@ == "name"@),
{
    let t = singular(tag);
    str_equal(n, t.as_str()) || str_equal(n, "project") || str_equal(n, "organization") || str_equal(
        n,
        "project_name",
    ) || str_equal(n, "organization_name") || str_equal(n, "name")
}

/// A parameter name without its `_name` and then `_id` suffixes (kept for
/// `new_name` and for names ending in `dns_name`).
pub open spec fn clean_param(p: Seq<char>) -> Seq<char> {
    if p != "new_name"@ && !has_suffix(p, "dns_name"@) {
        strip_all_suffix(strip_all_suffix(p, "_name"@), "_id"@)
    } else {
        p
    }
}

pub fn clean_param_name(p: &str) -> (r: String)
    ensures
        r@ == clean_param(p@),
{
    proof {
        reveal_strlit("_name");
        reveal_strlit("_id");
    }
    if !str_equal(p, "new_name") && !ends_with(p, "dns_name") {
        let t = trim_end_matches(p, "_name");
        trim_end_matches(t.as_str(), "_id")
    } else {
        owned(p)
    }
}

/// The short and long flags of a parameter; a short flag of `0` means none.
#[derive(Debug)]
pub struct Flags {
    pub short: char,
    pub long: String,
}

impl Flags {
    /// The flags as the help text shows them: `-s|--long`, or `--long`.
    pub fn format_help(&self) -> (r: String)
        ensures
            r@ == if self.short != '0' {
                seq!['-', self.short] + "|--"@ + self.long@
            } else {
                "--"@ + self.long@
            },
    {
        if self.short != '0' {
            let mut r = owned("-");
            crate::text::string_push(&mut r, self.short);
            r.append("|--");
            r.append(self.long.as_str());
            assert(r@ =~= seq!['-', self.short] + "|--"@ + self.long@) by {
                reveal_strlit("-");
            }
            r
        } else {
            concat2("--", self.long.as_str())
        }
    }

    /// The long flag as clap receives it: `ipv6-prefix` and `ipv4-prefix` in place of
    /// `ipv-6-prefix` and `ipv-4-prefix`.
    pub fn long_flag(&self) -> (r: String)
        ensures
            r@ == if self.long@ == "ipv-6-prefix"@ {
                "ipv6-prefix"@
            } else if self.long@ == "ipv-4-prefix"@ {
                "ipv4-prefix"@
            } else {
                self.long@
            },
    {
        if str_equal(self.long.as_str(), "ipv-6-prefix") {
            owned("ipv6-prefix")
        } else if str_equal(self.long.as_str(), "ipv-4-prefix") {
            owned("ipv4-prefix")
        } else {
            owned(self.long.as_str())
        }
    }
}

/// What `Inflector`'s `to_kebab_case` gives for `s`: its words, lower case, joined by `-`.
pub uninterp spec fn kebab_case(s: Seq<char>) -> Seq<char>;

/// `str::to_lowercase`: `s` in lower case (Unicode).
pub uninterp spec fn lower_case(s: Seq<char>) -> Seq<char>;

/// `inflector::cases::kebabcase::to_kebab_case`; its result is named `kebab_case`.
#[verifier::external_body]
fn to_kebab_case(s: &str) -> (r: String)
    ensures
        r@ == kebab_case(s@),
{
    inflector::cases::kebabcase::to_kebab_case(s)
}

/// `str::to_lowercase`: the result is named `lower_case`; as std documents it, each
/// character maps to one or more characters, so the result is empty exactly when `s`
/// is. Which characters come out is not stated here.
#[verifier::external_body]
pub(crate) fn to_lowercase(s: &str) -> (r: String)
    ensures
        r@ == lower_case(s@),
        r@.len() == 0 <==> s@.len() == 0,
{
    s.to_lowercase()
}

/// ASCII letters in upper case, other characters unchanged.
pub open spec fn ascii_upper(c: char) -> char {
    if 'a' <= c && c <= 'z' {
        ((c as u32) - 32) as char
    } else {
        c
    }
}

/// `char::to_ascii_uppercase`: `a` to `z` become `A` to `Z`, every other character
/// is returned unchanged, as std documents it.
#[verifier::external_body]
fn to_ascii_uppercase(c: char) -> (r: char)
    ensures
        r == ascii_upper(c),
{
    c.to_ascii_uppercase()
}

/// The long flag of a parameter: the kebab case of its name, `ipv4`/`ipv6` kept
/// together, and `vpc`/`router` without `-name`.
pub open spec fn long_flag_of(n: Seq<char>) -> Seq<char> {
    let l = replace_all(replace_all(kebab_case(n), "ipv-4"@, "ipv4"@), "ipv-6"@, "ipv6"@);
    if l == "vpc-name"@ || l == "router-name"@ {
        strip_all_suffix(l, "-name"@)
    } else {
        l
    }
}

/// The short flag of a parameter whose (lower case) name starts with `first`.
pub open spec fn short_flag_of(n: Seq<char>, first: char, long: Seq<char>) -> char {
    if n == "description"@ {
        ascii_upper(first)
    } else if n == "size"@ || first == 'd' || first == 'h' {
        '0'
    } else if n == "ncpus"@ {
        'c'
    } else if long == "ipv4-block"@ {
        '4'
    } else if long == "ipv6-block"@ {
        '6'
    } else {
        first
    }
}

/// Why a parameter gets no flags: "name must be at least 2 characters long" (counted
/// in bytes).
#[derive(Debug)]
pub enum FlagsError {
    TooShort,
}

/// The flags of the parameter `name` (a leading `new_` is dropped first): the long
/// flag from its kebab case, the short flag from its first letter, except that
/// `description` gets `D`, `size` and names starting with `d` or `h` (debug, help)
/// get none, `ncpus` gets `c`, and IPv4/IPv6 blocks get `4`/`6`.
pub fn get_flags(name: &str) -> (r: Result<Flags, FlagsError>)
    requires
        name.len() >= 2 ==> strip_all_prefix(name@, "new_"@).len() > 0,
    ensures
        match r {
            Ok(f) => name.len() >= 2 && ({
                let n = strip_all_prefix(name@, "new_"@);
                &&& f.long@ == long_flag_of(n)
                &&& f.short == short_flag_of(n, lower_case(n)[0], long_flag_of(n))
            }),
            Err(FlagsError::TooShort) => name.len() < 2,
        },
{
    if name.len() < 2 {
        return Err(FlagsError::TooShort);
    }
    proof {
        reveal_strlit("new_");
        reveal_strlit("-name");
    }
    let n = trim_start_matches(name, "new_");
    let k = to_kebab_case(n.as_str());
    proof {
        reveal_strlit("ipv-4");
        reveal_strlit("ipv-6");
    }
    let k4 = replace(k.as_str(), "ipv-4", "ipv4");
    let mut long = replace(k4.as_str(), "ipv-6", "ipv6");
    if str_equal(long.as_str(), "vpc-name") || str_equal(long.as_str(), "router-name") {
        long = trim_end_matches(long.as_str(), "-name");
    }
    let lower = to_lowercase(n.as_str());
    let first = lower.get_char(0);
    let short = if str_equal(n.as_str(), "description") {
        to_ascii_uppercase(first)
    } else if str_equal(n.as_str(), "size") || first == 'd' || first == 'h' {
        '0'
    } else if str_equal(n.as_str(), "ncpus") {
        'c'
    } else if str_equal(long.as_str(), "ipv4-block") {
        '4'
    } else if str_equal(long.as_str(), "ipv6-block") {
        '6'
    } else {
        first
    };
    Ok(Flags { short, long })
}

} // verus!
