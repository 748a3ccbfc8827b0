//! The decisions shared by the create, edit, view, list and delete commands of each
//! resource: required flags, the limit of a listing, whether an edit changes
//! anything, the confirmation of a deletion, and the lines printed.
use vstd::prelude::*;

use crate::colors::{AnsiStyle, ColorScheme};
use crate::confirm::{ConfirmStep, confirm_step, confirm_step_spec, type_to_confirm, type_to_confirm_prompt};
use crate::naming::{Flags, FlagsError, get_flags, long_flag_of, lower_case, short_flag_of, singular, singular_of};
use crate::text::{concat2, concat3, owned, str_equal, strip_all_prefix};

verus! {

/// The views of a list of (flag, value) pairs.
pub open spec fn flag_pairs(v: Seq<(String, String)>) -> Seq<(Seq<char>, Seq<char>)> {
    v.map_values(|p: (String, String)| (p.0@, p.1@))
}

/// The first flag, in order, whose value is empty.
pub open spec fn first_missing(flags: Seq<(Seq<char>, Seq<char>)>) -> Option<Seq<char>>
    decreases flags.len(),
{
    if flags.len() == 0 {
        None
    } else if flags[0].1.len() == 0 {
        Some(flags[0].0)
    } else {
        first_missing(flags.skip(1))
    }
}

proof fn lemma_first_missing(flags: Seq<(Seq<char>, Seq<char>)>)
    ensures
        first_missing(flags) is Some <==> exists|i: int| 0 <= i < flags.len() && flags[i].1.len() == 0,
    decreases flags.len(),
{
    if flags.len() > 0 {
        lemma_first_missing(flags.skip(1));
        if flags[0].1.len() != 0 {
            assert forall|i: int| 0 <= i < flags.len() && flags[i].1.len() == 0 implies (0 <= i - 1 < flags.skip(1).len()
                && flags.skip(1)[i - 1].1.len() == 0) by {}
            if exists|j: int| 0 <= j < flags.skip(1).len() && flags.skip(1)[j].1.len() == 0 {
                let j = choose|j: int| 0 <= j < flags.skip(1).len() && flags.skip(1)[j].1.len() == 0;
                assert(flags[j + 1].1.len() == 0);
            }
        }
    }
}

/// Without a prompt, the first required flag (by its label, in order) that was not
/// given: "<flag> required in non-interactive mode". With a prompt nothing is
/// missing, as the user is asked.
pub fn missing_required_flag(can_prompt: bool, flags: &Vec<(String, String)>) -> (r: Option<String>)
    ensures
        can_prompt ==> r is None,
        !can_prompt ==> (r is Some <==> exists|i: int| 0 <= i < flags@.len() && flags@[i].1@.len() == 0),
        !can_prompt ==> match first_missing(flag_pairs(flags@)) {
            None => r is None,
            Some(f) => r matches Some(m) && m@ == f + " required in non-interactive mode"@,
        },
{
    proof {
        lemma_first_missing(flag_pairs(flags@));
        assert forall|i: int| 0 <= i < flags@.len() implies #[trigger] flag_pairs(flags@)[i] == (
        flags@[i].0@,
        flags@[i].1@,
        ) by {}
    }
    if can_prompt {
        return None;
    }
    let ghost fs = flag_pairs(flags@);
    let mut i: usize = 0;
    assert(fs.skip(0) =~= fs);
    while i < flags.len()
        invariant
            !can_prompt,
            i <= flags@.len(),
            fs == flag_pairs(flags@),
            fs.len() == flags@.len(),
            forall|j: int| 0 <= j < flags@.len() ==> #[trigger] fs[j] == (flags@[j].0@, flags@[j].1@),
            first_missing(fs) == first_missing(fs.skip(i as int)),
            first_missing(fs) is Some <==> exists|j: int| 0 <= j < fs.len() && fs[j].1.len() == 0,
        decreases flags@.len() - i,
    {
        assert(fs.skip(i as int)[0] == fs[i as int]);
        assert(fs.skip(i as int).skip(1) =~= fs.skip(i + 1));
        if flags[i].1.unicode_len() == 0 {
            assert(fs[i as int].1.len() == 0);
            return Some(concat2(flags[i].0.as_str(), " required in non-interactive mode"));
        }
        i = i + 1;
    }
    assert(fs.skip(i as int) =~= Seq::<(Seq<char>, Seq<char>)>::empty());
    assert forall|j: int| 0 <= j < flags@.len() implies flags@[j].1@.len() != 0 by {
        assert(fs[j] == (flags@[j].0@, flags@[j].1@));
    }
    None
}

/// How a required parameter is named in that message: the resource's own name (the
/// singular of `tag`) as an argument in brackets, any other one by its flags.
pub open spec fn flag_label_of(n: Seq<char>, tag: Seq<char>) -> Seq<char> {
    if n == singular_of(tag) {
        "["@ + n + "]"@
    } else {
        let m = strip_all_prefix(n, "new_"@);
        let short = short_flag_of(m, lower_case(m)[0], long_flag_of(m));
        if short != '0' {
            seq!['-', short] + "|--"@ + long_flag_of(m)
        } else {
            "--"@ + long_flag_of(m)
        }
    }
}

/// The name of the parameter `n` (cleaned of its suffixes) of a command of the
/// resource `tag`, as the message about a missing flag gives it.
pub fn flag_label(n: &str, tag: &str) -> (r: Result<String, FlagsError>)
    requires
        n.len() >= 2 ==> strip_all_prefix(n@, "new_"@).len() > 0,
    ensures
        match r {
            Ok(l) => (n@ == singular_of(tag@) || n.len() >= 2) && l@ == flag_label_of(n@, tag@),
            Err(_) => n@ != singular_of(tag@) && n.len() < 2,
        },
{
    let s = singular(tag);
    if str_equal(n, s.as_str()) {
        proof {
            reveal_strlit("[");
            reveal_strlit("]");
        }
        return Ok(concat3("[", n, "]"));
    }
    match get_flags(n) {
        Ok(f) => Ok(f.format_help()),
        Err(e) => Err(e),
    }
}

/// The check-mark line after creating the `kind` named `name`, with `in <parent>`
/// when it lives in a project.
pub open spec fn created_line(cs: ColorScheme, kind: Seq<char>, name: Seq<char>, parent: Option<Seq<char>>) -> Seq<char> {
    cs.styled(AnsiStyle::Green, "✔"@) + " Created "@ + kind + " "@ + name + match parent {
        Some(p) => " in "@ + p,
        None => Seq::empty(),
    }
}

/// What is printed once a resource is created.
pub fn created_message(cs: &ColorScheme, kind: &str, name: &str, parent: Option<&str>) -> (r: String)
    ensures
        r@ == created_line(*cs, kind@, name@, match parent {
            Some(p) => Some(p@),
            None => None,
        }),
{
    let icon = cs.success_icon();
    let a = concat3(icon.as_str(), " Created ", kind);
    let b = concat3(a.as_str(), " ", name);
    match parent {
        Some(p) => concat3(b.as_str(), " in ", p),
        None => {
            assert(b@ =~= b@ + Seq::<char>::empty());
            b
        },
    }
}

/// A listing asks for at least one item.
pub fn check_list_limit(limit: u32) -> (r: Result<(), String>)
    ensures
        r is Ok <==> limit > 0,
        r matches Err(m) ==> m@ == "--limit must be greater than 0"@,
{
    if limit < 1 {
        return Err(owned("--limit must be greater than 0"));
    }
    Ok(())
}

/// An edit must change something: one of the settings it may change was given.
pub fn check_edit(changed: &Vec<bool>) -> (r: Result<(), String>)
    ensures
        r is Ok <==> exists|i: int| 0 <= i < changed@.len() && changed@[i],
        r matches Err(m) ==> m@ == "nothing to edit"@,
{
    let mut i: usize = 0;
    while i < changed.len()
        invariant
            i <= changed@.len(),
            forall|j: int| 0 <= j < i ==> !changed@[j],
        decreases changed@.len() - i,
    {
        if changed[i] {
            return Ok(());
        }
        i = i + 1;
    }
    Err(owned("nothing to edit"))
}

/// The line after editing the `kind` named `name`: with `-> <new name>` in green
/// when it was renamed, else with a red check mark; `in <parent>` when it lives in a
/// project.
pub open spec fn edited_line(
    cs: ColorScheme,
    kind: Seq<char>,
    name: Seq<char>,
    new_name: Option<Seq<char>>,
    parent: Option<Seq<char>>,
) -> Seq<char> {
    let place = match parent {
        Some(p) => " in "@ + p,
        None => Seq::empty(),
    };
    match new_name {
        Some(n) if n.len() > 0 => cs.styled(AnsiStyle::Green, "✔"@) + " Edited "@ + kind + " "@ + name + " -> "@ + n
            + place,
        _ => cs.styled(AnsiStyle::Red, "✔"@) + " Edited "@ + kind + " "@ + name + place,
    }
}

/// What is printed once a resource is edited.
pub fn edited_message(cs: &ColorScheme, kind: &str, name: &str, new_name: Option<&str>, parent: Option<&str>) -> (r: String)
    ensures
        r@ == edited_line(
            *cs,
            kind@,
            name@,
            match new_name {
                Some(n) => Some(n@),
                None => None,
            },
            match parent {
                Some(p) => Some(p@),
                None => None,
            },
        ),
{
    let renamed = match new_name {
        Some(n) => n.unicode_len() > 0,
        None => false,
    };
    let head = if renamed {
        let icon = cs.success_icon();
        let a = concat3(icon.as_str(), " Edited ", kind);
        let b = concat3(a.as_str(), " ", name);
        match new_name {
            Some(n) => concat3(b.as_str(), " -> ", n),
            None => b,
        }
    } else {
        let icon = cs.success_icon_with_color(AnsiStyle::Red);
        let a = concat3(icon.as_str(), " Edited ", kind);
        concat3(a.as_str(), " ", name)
    };
    match parent {
        Some(p) => concat3(head.as_str(), " in ", p),
        None => {
            assert(head@ =~= head@ + Seq::<char>::empty());
            head
        },
    }
}

/// Before deleting the resource `name`: `--confirm`, or typing its name.
pub fn delete_step(can_prompt: bool, confirm: bool, name: &str) -> (r: ConfirmStep)
    ensures
        confirm_step_spec(r, can_prompt, confirm, type_to_confirm(name@, "deletion"@), name@),
{
    let prompt = type_to_confirm_prompt(name, "deletion");
    confirm_step(can_prompt, confirm, prompt, name)
}

/// The line after deleting the `kind` named `name`, with `from <parent>` when it
/// lived in a project.
pub open spec fn deleted_line(cs: ColorScheme, kind: Seq<char>, name: Seq<char>, parent: Option<Seq<char>>) -> Seq<char> {
    cs.styled(AnsiStyle::Red, "✔"@) + " Deleted "@ + kind + " "@ + name + match parent {
        Some(p) => " from "@ + p,
        None => Seq::empty(),
    }
}

/// What is printed once a resource is deleted.
pub fn deleted_message(cs: &ColorScheme, kind: &str, name: &str, parent: Option<&str>) -> (r: String)
    ensures
        r@ == deleted_line(*cs, kind@, name@, match parent {
            Some(p) => Some(p@),
            None => None,
        }),
{
    let icon = cs.success_icon_with_color(AnsiStyle::Red);
    let a = concat3(icon.as_str(), " Deleted ", kind);
    let b = concat3(a.as_str(), " ", name);
    match parent {
        Some(p) => concat3(b.as_str(), " from ", p),
        None => {
            assert(b@ =~= b@ + Seq::<char>::empty());
            b
        },
    }
}

} // verus!
