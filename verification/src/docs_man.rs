//! The manual page of a command, written with `roff`.
use vstd::prelude::*;

use roff::Troffable;

use crate::config::strings_view;
use crate::docs::{ArgDoc, CommandDoc, SubcommandDoc};
use crate::naming::{lower_case, to_lowercase};
use crate::text::{
    concat2, concat3, join_first, join_with, owned, replace, replace_all, split_char, split_on, string_push, trim,
    trim_ws,
};

verus! {

/// `roff::bold`: the text between the bold and the roman font escapes.
pub open spec fn roff_bold(s: Seq<char>) -> Seq<char> {
    "\\fB"@ + s + "\\fR"@
}

/// `roff::italic`: the text between the italic and the roman font escapes.
pub open spec fn roff_italic(s: Seq<char>) -> Seq<char> {
    "\\fI"@ + s + "\\fR"@
}

/// The strings of `parts`, one after the other.
pub open spec fn concat_all(parts: Seq<Seq<char>>) -> Seq<char>
    decreases parts.len(),
{
    if parts.len() == 0 {
        Seq::empty()
    } else {
        concat_all(parts.drop_last()) + parts.last()
    }
}

/// `roff::list`: a tagged paragraph with the header, then the content.
pub open spec fn roff_list(header: Seq<Seq<char>>, content: Seq<Seq<char>>) -> Seq<char> {
    ".TP\n"@ + concat_all(header) + "\n"@ + concat_all(content)
}

/// `roff::bold` (0.1): `\fB`, the text, `\fR`.
#[verifier::external_body]
fn bold(s: &str) -> (r: String)
    ensures
        r@ == roff_bold(s@),
{
    roff::bold(s)
}

/// `roff::italic` (0.1): `\fI`, the text, `\fR`.
#[verifier::external_body]
fn italic(s: &str) -> (r: String)
    ensures
        r@ == roff_italic(s@),
{
    roff::italic(s)
}

/// `roff::list` (0.1): `.TP`, a newline, the header's parts, a newline, the
/// content's parts.
#[verifier::external_body]
fn list(header: &Vec<String>, content: &Vec<String>) -> (r: String)
    ensures
        r@ == roff_list(strings_view(header@), strings_view(content@)),
{
    roff::list(header, content)
}

/// What `str::to_uppercase` gives for `s`.
pub uninterp spec fn upper_case(s: Seq<char>) -> Seq<char>;

/// The sections of a page as `roff` renders them: `.SH` and the title in upper
/// case, the content, every `-` escaped as `\-`, then a newline.
pub open spec fn roff_sections(sections: Seq<(Seq<char>, Seq<char>)>) -> Seq<char>
    decreases sections.len(),
{
    if sections.len() == 0 {
        Seq::empty()
    } else {
        roff_sections(sections.drop_last()) + replace_all(
            ".SH "@ + upper_case(sections.last().0) + "\n"@ + sections.last().1,
            "-"@,
            "\\-"@,
        ) + "\n"@
    }
}

/// A page as `roff` renders it: `.TH`, the title in upper case and the section
/// number, a newline, then the sections.
pub open spec fn roff_page(title: Seq<char>, section: nat, sections: Seq<(Seq<char>, Seq<char>)>) -> Seq<char> {
    ".TH "@ + upper_case(title) + " "@ + crate::text::decimal(section) + "\n"@ + roff_sections(sections)
}

/// The views of the sections of a page.
pub open spec fn sections_view(v: Seq<(String, String)>) -> Seq<(Seq<char>, Seq<char>)> {
    v.map_values(|p: (String, String)| (p.0@, p.1@))
}

/// `roff::Roff` (0.1) with title `title` and section `section`, one section per
/// pair (its title and its single content), rendered.
#[verifier::external_body]
fn render_page(title: &str, section: i8, sections: &Vec<(String, String)>) -> (r: String)
    requires
        section >= 0,
    ensures
        r@ == ".TH "@ + upper_case(title@) + " "@ + crate::text::decimal(section as nat) + "\n"@ + roff_sections(
            sections_view(sections@),
        ),
{
    let mut page = roff::Roff::new(title, section);
    for (t, c) in sections.iter() {
        page = page.section(t, &[c.as_str()]);
    }
    page.render()
}

/// The signs around an argument: `<` `>` when it is required, `[` `]` otherwise.
pub open spec fn marker_pair(required: bool) -> (Seq<char>, Seq<char>) {
    if required {
        ("<"@, ">"@)
    } else {
        ("["@, "]"@)
    }
}

/// The signs around an argument.
pub fn markers(required: bool) -> (r: (&'static str, &'static str))
    ensures
        r.0@ == marker_pair(required).0,
        r.1@ == marker_pair(required).1,
{
    if required {
        ("<", ">")
    } else {
        ("[", "]")
    }
}

/// How the synopsis shows a flag: its short and long forms between the markers,
/// then a space; nothing for an argument without flags.
pub open spec fn flag_synopsis(a: ArgDoc) -> Seq<char> {
    let (l, r) = marker_pair(a.required);
    match (a.short, a.long) {
        (Some(s), Some(g)) => l + seq!['-', s] + "|--"@ + g@ + r + " "@,
        (Some(s), None) => l + seq!['-', s] + r + " "@,
        (None, Some(g)) => l + "--"@ + g@ + r + " "@,
        (None, None) => Seq::empty(),
    }
}

/// The flags of the arguments `args` in the synopsis.
pub open spec fn flags_synopsis(args: Seq<ArgDoc>) -> Seq<char>
    decreases args.len(),
{
    if args.len() == 0 {
        Seq::empty()
    } else {
        flags_synopsis(args.drop_last()) + flag_synopsis(args.last())
    }
}

/// The positional arguments of `args` in the synopsis: their names between the
/// markers.
pub open spec fn positionals_synopsis(args: Seq<ArgDoc>) -> Seq<char>
    decreases args.len(),
{
    if args.len() == 0 {
        Seq::empty()
    } else {
        positionals_synopsis(args.drop_last()) + (if args.last().positional {
            marker_pair(args.last().required).0 + args.last().id@ + marker_pair(args.last().required).1 + " "@
        } else {
            Seq::empty()
        })
    }
}

/// The heading of the subcommands section.
pub open spec fn subcommand_heading_of(c: CommandDoc) -> Seq<char> {
    match c.subcommand_heading {
        Some(h) => h@,
        None => "Subcommands"@,
    }
}

/// The subcommand in the synopsis: its value name (else the heading) in lower
/// case, between the markers.
pub open spec fn subcommand_synopsis(c: CommandDoc) -> Seq<char> {
    if c.subcommands@.len() > 0 {
        let (l, r) = marker_pair(c.subcommand_required);
        l + lower_case(
            match c.subcommand_value_name {
                Some(v) => v@,
                None => subcommand_heading_of(c),
            },
        ) + r + " "@
    } else {
        Seq::empty()
    }
}

/// The synopsis of the page `title` of the command `c`.
pub open spec fn synopsis_of(c: CommandDoc, title: Seq<char>) -> Seq<char> {
    trim_ws(
        roff_italic(title) + " "@ + flags_synopsis(c.args@) + positionals_synopsis(c.args@) + subcommand_synopsis(c),
    )
}

/// The heading of the subcommands section.
pub fn subcommand_heading(c: &CommandDoc) -> (r: String)
    ensures
        r@ == subcommand_heading_of(*c),
{
    match &c.subcommand_heading {
        Some(h) => owned(h.as_str()),
        None => owned("Subcommands"),
    }
}

fn flag_synopsis_text(a: &ArgDoc) -> (r: String)
    ensures
        r@ == flag_synopsis(*a),
{
    let (l, r) = markers(a.required);
    match (a.short, &a.long) {
        (Some(s), Some(g)) => {
            let mut t = owned(l);
            string_push(&mut t, '-');
            string_push(&mut t, s);
            let u = concat3(t.as_str(), "|--", g.as_str());
            let out = concat3(u.as_str(), r, " ");
            proof {
                reveal_strlit("-");
                assert(out@ =~= flag_synopsis(*a));
            }
            out
        },
        (Some(s), None) => {
            let mut t = owned(l);
            string_push(&mut t, '-');
            string_push(&mut t, s);
            let out = concat3(t.as_str(), r, " ");
            assert(out@ =~= flag_synopsis(*a));
            out
        },
        (None, Some(g)) => {
            let u = concat3(l, "--", g.as_str());
            concat3(u.as_str(), r, " ")
        },
        (None, None) => String::new(),
    }
}

/// The synopsis of the page `title` of the command `c`: the title, the flags, the
/// positional arguments and the subcommand.
pub fn synopsis(c: &CommandDoc, title: &str) -> (r: String)
    ensures
        r@ == synopsis_of(*c, title@),
{
    let it = italic(title);
    let mut res = concat2(it.as_str(), " ");
    let ghost start = res@;
    let mut i: usize = 0;
    assert(c.args@.take(0) =~= Seq::<ArgDoc>::empty());
    while i < c.args.len()
        invariant
            i <= c.args@.len(),
            res@ == start + flags_synopsis(c.args@.take(i as int)),
        decreases c.args@.len() - i,
    {
        let t = flag_synopsis_text(&c.args[i]);
        res.append(t.as_str());
        proof {
            assert(c.args@.take(i + 1).drop_last() =~= c.args@.take(i as int));
        }
        i = i + 1;
    }
    assert(c.args@.take(c.args@.len() as int) =~= c.args@);
    let ghost after_flags = res@;
    let mut j: usize = 0;
    assert(c.args@.take(0) =~= Seq::<ArgDoc>::empty());
    while j < c.args.len()
        invariant
            j <= c.args@.len(),
            res@ == after_flags + positionals_synopsis(c.args@.take(j as int)),
        decreases c.args@.len() - j,
    {
        if c.args[j].positional {
            let (l, r) = markers(c.args[j].required);
            let t = concat3(l, c.args[j].id.as_str(), r);
            res.append(t.as_str());
            res.append(" ");
        }
        proof {
            assert(c.args@.take(j + 1).drop_last() =~= c.args@.take(j as int));
        }
        j = j + 1;
    }
    assert(c.args@.take(c.args@.len() as int) =~= c.args@);
    let ghost after_pos = res@;
    if c.subcommands.len() > 0 {
        let (l, r) = markers(c.subcommand_required);
        let name = match &c.subcommand_value_name {
            Some(v) => owned(v.as_str()),
            None => subcommand_heading(c),
        };
        let lower = to_lowercase(name.as_str());
        let t = concat3(l, lower.as_str(), r);
        res.append(t.as_str());
        res.append(" ");
    }
    assert(res@ =~= roff_italic(title@) + " "@ + flags_synopsis(c.args@) + positionals_synopsis(c.args@)
        + subcommand_synopsis(*c));
    trim(res.as_str())
}


/// A paragraph: the `.PP` request, then the text (`roff` 0.1 has no paragraph
/// function).
pub open spec fn man_paragraph(t: Seq<char>) -> Seq<char> {
    ".PP\n"@ + t + "\n"@
}

fn paragraph(t: &str) -> (r: String)
    ensures
        r@ == man_paragraph(t@),
{
    concat3(".PP\n", t, "\n")
}

/// The trimmed lines of `parts` that are not blank.
pub open spec fn filled_lines(parts: Seq<Seq<char>>) -> Seq<Seq<char>>
    decreases parts.len(),
{
    if parts.len() == 0 {
        Seq::empty()
    } else if trim_ws(parts.last()).len() > 0 {
        filled_lines(parts.drop_last()).push(trim_ws(parts.last()))
    } else {
        filled_lines(parts.drop_last())
    }
}

/// The non-blank lines of `text`, trimmed.
pub open spec fn text_lines(text: Seq<char>) -> Seq<Seq<char>> {
    filled_lines(split_on(text, '\n'))
}

/// The non-blank lines of `text`, trimmed.
fn lines_of(text: &str) -> (r: Vec<String>)
    ensures
        strings_view(r@) == text_lines(text@),
{
    let parts = split_char(text, '\n');
    let ghost ps = strings_view(parts@);
    assert(ps =~= split_on(text@, '\n'));
    let mut out: Vec<String> = Vec::new();
    let mut i: usize = 0;
    assert(ps.take(0) =~= Seq::<Seq<char>>::empty());
    while i < parts.len()
        invariant
            ps == strings_view(parts@),
            i <= parts@.len(),
            strings_view(out@) == filled_lines(ps.take(i as int)),
        decreases parts@.len() - i,
    {
        let t = trim(parts[i].as_str());
        assert(ps.take(i + 1).drop_last() =~= ps.take(i as int));
        assert(ps.take(i + 1).last() == parts@[i as int]@);
        if t.unicode_len() > 0 {
            let ghost before = strings_view(out@);
            out.push(t);
            assert(strings_view(out@) =~= before.push(trim_ws(parts@[i as int]@)));
        }
        i = i + 1;
    }
    assert(ps.take(ps.len() as int) =~= ps);
    out
}

/// The paragraphs of the lines `ls`.
pub open spec fn paragraphs(ls: Seq<Seq<char>>) -> Seq<Seq<char>> {
    ls.map_values(|l: Seq<char>| man_paragraph(l))
}

fn paragraphs_of(text: &str) -> (r: Vec<String>)
    ensures
        strings_view(r@) == paragraphs(text_lines(text@)),
{
    let ls = lines_of(text);
    let mut out: Vec<String> = Vec::new();
    let mut i: usize = 0;
    while i < ls.len()
        invariant
            i <= ls@.len(),
            strings_view(ls@) == text_lines(text@),
            strings_view(out@) =~= paragraphs(text_lines(text@)).take(i as int),
        decreases ls@.len() - i,
    {
        let p = paragraph(ls[i].as_str());
        let ghost before = strings_view(out@);
        out.push(p);
        assert(strings_view(out@) =~= before.push(p@));
        assert(paragraphs(text_lines(text@)).take(i + 1) =~= paragraphs(text_lines(text@)).take(i as int).push(p@));
        i = i + 1;
    }
    assert(paragraphs(text_lines(text@)).take(ls@.len() as int) =~= paragraphs(text_lines(text@)));
    out
}

/// The long text, else the short one.
pub open spec fn either(first: Option<String>, second: Option<String>) -> Option<Seq<char>> {
    match first {
        Some(f) => Some(f@),
        None => match second {
            Some(s) => Some(s@),
            None => None,
        },
    }
}

fn either_text(first: &Option<String>, second: &Option<String>) -> (r: Option<String>)
    ensures
        match r {
            Some(t) => either(*first, *second) == Some(t@),
            None => either(*first, *second) is None,
        },
{
    match first {
        Some(f) => Some(owned(f.as_str())),
        None => match second {
            Some(s) => Some(owned(s.as_str())),
            None => None,
        },
    }
}

/// The description section: a paragraph per line of the long description (else
/// the short one).
pub open spec fn description_of(c: CommandDoc) -> Seq<Seq<char>> {
    match either(c.long_about, c.about) {
        Some(t) => paragraphs(text_lines(t)),
        None => Seq::empty(),
    }
}

fn description(c: &CommandDoc) -> (r: Vec<String>)
    ensures
        strings_view(r@) == description_of(*c),
{
    match either_text(&c.long_about, &c.about) {
        Some(t) => paragraphs_of(t.as_str()),
        None => {
            let v: Vec<String> = Vec::new();
            assert(strings_view(v@) =~= Seq::<Seq<char>>::empty());
            v
        },
    }
}

/// The "Extra" section: a paragraph per line of the text after the help.
pub open spec fn after_help_of(c: CommandDoc) -> Seq<Seq<char>> {
    match c.after_help {
        Some(t) => paragraphs(text_lines(t@)),
        None => Seq::empty(),
    }
}

/// The "Name" section: the title with dashes, and the description.
pub open spec fn about_of(c: CommandDoc, title: Seq<char>) -> Seq<char> {
    let t = replace_all(title, " "@, "-"@);
    match either(c.about, c.long_about) {
        Some(a) => t + " - "@ + a,
        None => t,
    }
}

fn about(c: &CommandDoc, title: &str) -> (r: String)
    ensures
        r@ == about_of(*c, title@),
{
    proof {
        reveal_strlit(" ");
    }
    let t = replace(title, " ", "-");
    match either_text(&c.about, &c.long_about) {
        Some(a) => concat3(t.as_str(), " - ", a.as_str()),
        None => t,
    }
}

/// The views of an optional list of strings.
pub open spec fn opt_strings(v: Option<Vec<String>>) -> Option<Seq<Seq<char>>> {
    match v {
        Some(x) => Some(strings_view(x@)),
        None => None,
    }
}

/// The default values of an argument: `[default: a,b]`, when it has some.
pub open spec fn defaults_part(a: ArgDoc) -> Seq<Seq<char>> {
    if a.default_values@.len() > 0 {
        seq![" [default: "@ + join_with(strings_view(a.default_values@), ","@) + "]"@]
    } else {
        Seq::empty()
    }
}

/// The forms of a flag in bold: short, long, or both separated by a comma.
pub open spec fn flag_forms(a: ArgDoc) -> Seq<Seq<char>> {
    match (a.short, a.long) {
        (Some(s), Some(g)) => seq!["-"@ + roff_bold(seq![s]), ", "@, "--"@ + roff_bold(g@)],
        (Some(s), None) => seq!["-"@ + roff_bold(seq![s])],
        (None, Some(g)) => seq!["--"@ + roff_bold(g@)],
        (None, None) => Seq::empty(),
    }
}

/// The header of a flag: its forms in bold, its value names in italics, its
/// default values.
pub open spec fn flag_header(a: ArgDoc) -> Seq<Seq<char>> {
    flag_forms(a) + (match opt_strings(a.value_names) {
        Some(v) => seq!["="@ + roff_italic(join_with(v, " "@))],
        None => Seq::empty(),
    }) + defaults_part(a)
}

/// The body of an argument: its help (long, else short) and its environment
/// variable.
pub open spec fn arg_body(a: ArgDoc) -> Seq<Seq<char>> {
    (match either(a.long_help, a.help) {
        Some(h) => seq![h],
        None => Seq::empty(),
    }) + (match a.env {
        Some(e) => seq![man_paragraph("May also be specified with the "@ + roff_bold(e@) + " environment variable. "@)],
        None => Seq::empty(),
    })
}

/// The entry of a flag in the options section.
pub open spec fn flag_entry(a: ArgDoc) -> Seq<char> {
    roff_list(flag_header(a), arg_body(a).push("\n"@))
}

/// The entry of a positional argument in the options section.
pub open spec fn positional_entry(a: ArgDoc) -> Seq<char> {
    let (l, r) = marker_pair(a.required);
    roff_list(seq![roff_bold(l + a.id@ + r)] + defaults_part(a), arg_body(a))
}

/// The entries of the visible flags of `args`.
pub open spec fn flag_entries(args: Seq<ArgDoc>) -> Seq<Seq<char>>
    decreases args.len(),
{
    if args.len() == 0 {
        Seq::empty()
    } else if !args.last().hidden && !args.last().positional {
        flag_entries(args.drop_last()).push(flag_entry(args.last()))
    } else {
        flag_entries(args.drop_last())
    }
}

/// The entries of the visible positional arguments of `args`.
pub open spec fn positional_entries(args: Seq<ArgDoc>) -> Seq<Seq<char>>
    decreases args.len(),
{
    if args.len() == 0 {
        Seq::empty()
    } else if !args.last().hidden && args.last().positional {
        positional_entries(args.drop_last()).push(positional_entry(args.last()))
    } else {
        positional_entries(args.drop_last())
    }
}

/// The options section: the visible flags, then the visible positional arguments.
pub open spec fn options_of(c: CommandDoc) -> Seq<Seq<char>> {
    flag_entries(c.args@) + positional_entries(c.args@)
}

fn push_text(v: &mut Vec<String>, s: String)
    ensures
        strings_view(final(v)@) == strings_view(old(v)@).push(s@),
{
    let ghost before = strings_view(v@);
    v.push(s);
    assert(strings_view(v@) =~= before.push(s@));
}

fn empty_texts() -> (r: Vec<String>)
    ensures
        strings_view(r@) == Seq::<Seq<char>>::empty(),
{
    let v: Vec<String> = Vec::new();
    assert(strings_view(v@) =~= Seq::<Seq<char>>::empty());
    v
}

fn defaults_text(a: &ArgDoc, v: &mut Vec<String>)
    ensures
        strings_view(final(v)@) == strings_view(old(v)@) + defaults_part(*a),
{
    let ghost before = strings_view(v@);
    if a.default_values.len() > 0 {
        let d = join_first(&a.default_values, a.default_values.len(), ",");
        assert(a.default_values@.take(a.default_values@.len() as int) =~= a.default_values@);
        let t = concat3(" [default: ", d.as_str(), "]");
        push_text(v, t);
    }
    assert(strings_view(v@) =~= before + defaults_part(*a));
}

fn flag_header_text(a: &ArgDoc) -> (r: Vec<String>)
    ensures
        strings_view(r@) == flag_header(*a),
{
    let mut h = empty_texts();
    match (a.short, &a.long) {
        (Some(s), Some(g)) => {
            let mut c = String::new();
            string_push(&mut c, s);
            let b = bold(c.as_str());
            push_text(&mut h, concat2("-", b.as_str()));
            push_text(&mut h, owned(", "));
            let bg = bold(g.as_str());
            push_text(&mut h, concat2("--", bg.as_str()));
        },
        (Some(s), None) => {
            let mut c = String::new();
            string_push(&mut c, s);
            let b = bold(c.as_str());
            push_text(&mut h, concat2("-", b.as_str()));
        },
        (None, Some(g)) => {
            let bg = bold(g.as_str());
            push_text(&mut h, concat2("--", bg.as_str()));
        },
        (None, None) => {},
    }
    let ghost forms = strings_view(h@);
    if let Some(vn) = &a.value_names {
        let j = join_first(vn, vn.len(), " ");
        assert(vn@.take(vn@.len() as int) =~= vn@);
        let it = italic(j.as_str());
        push_text(&mut h, concat2("=", it.as_str()));
    }
    defaults_text(a, &mut h);
    proof {
        assert(forms =~= flag_forms(*a));
        assert(strings_view(h@) =~= flag_header(*a));
    }
    h
}

fn arg_body_text(a: &ArgDoc) -> (r: Vec<String>)
    ensures
        strings_view(r@) == arg_body(*a),
{
    let mut b = empty_texts();
    match either_text(&a.long_help, &a.help) {
        Some(h) => push_text(&mut b, h),
        None => {},
    }
    let ghost helps = strings_view(b@);
    if let Some(e) = &a.env {
        let be = bold(e.as_str());
        let t = concat3("May also be specified with the ", be.as_str(), " environment variable. ");
        push_text(&mut b, paragraph(t.as_str()));
    }
    assert(strings_view(b@) =~= arg_body(*a));
    b
}

/// The options section of the command `c`.
fn options(c: &CommandDoc) -> (r: Vec<String>)
    ensures
        strings_view(r@) == options_of(*c),
{
    let mut res = empty_texts();
    let mut i: usize = 0;
    assert(c.args@.take(0) =~= Seq::<ArgDoc>::empty());
    while i < c.args.len()
        invariant
            i <= c.args@.len(),
            strings_view(res@) == flag_entries(c.args@.take(i as int)),
        decreases c.args@.len() - i,
    {
        let a = &c.args[i];
        assert(c.args@.take(i + 1).drop_last() =~= c.args@.take(i as int));
        if !a.hidden && !a.positional {
            let header = flag_header_text(a);
            let mut body = arg_body_text(a);
            push_text(&mut body, owned("\n"));
            push_text(&mut res, list(&header, &body));
        }
        i = i + 1;
    }
    assert(c.args@.take(c.args@.len() as int) =~= c.args@);
    let ghost flags = strings_view(res@);
    let mut j: usize = 0;
    assert(c.args@.take(0) =~= Seq::<ArgDoc>::empty());
    while j < c.args.len()
        invariant
            j <= c.args@.len(),
            strings_view(res@) == flags + positional_entries(c.args@.take(j as int)),
        decreases c.args@.len() - j,
    {
        let a = &c.args[j];
        assert(c.args@.take(j + 1).drop_last() =~= c.args@.take(j as int));
        if !a.hidden && a.positional {
            let (l, r) = markers(a.required);
            let name = concat3(l, a.id.as_str(), r);
            let mut header = empty_texts();
            push_text(&mut header, bold(name.as_str()));
            defaults_text(a, &mut header);
            let body = arg_body_text(a);
            let ghost before = strings_view(res@);
            push_text(&mut res, list(&header, &body));
            assert(strings_view(res@) =~= flags + positional_entries(c.args@.take(j + 1)));
        }
        j = j + 1;
    }
    assert(c.args@.take(c.args@.len() as int) =~= c.args@);
    res
}


/// The entry of a subcommand: its page name in bold, then the lines of its
/// description (short, else long).
pub open spec fn subcommand_entry(s: SubcommandDoc, title: Seq<char>) -> Seq<char> {
    let name = replace_all(title, " "@, "-"@) + "-"@ + s.name@ + "(1)"@;
    roff_list(
        seq![roff_bold(name)],
        (match either(s.about, s.long_about) {
            Some(a) => text_lines(a),
            None => Seq::empty(),
        }).push("\n"@),
    )
}

/// The entries of the visible subcommands of `subs`.
pub open spec fn subcommand_entries(subs: Seq<SubcommandDoc>, title: Seq<char>) -> Seq<Seq<char>>
    decreases subs.len(),
{
    if subs.len() == 0 {
        Seq::empty()
    } else if !subs.last().hidden {
        subcommand_entries(subs.drop_last(), title).push(subcommand_entry(subs.last(), title))
    } else {
        subcommand_entries(subs.drop_last(), title)
    }
}

fn subcommands(c: &CommandDoc, title: &str) -> (r: Vec<String>)
    ensures
        strings_view(r@) == subcommand_entries(c.subcommands@, title@),
{
    proof {
        reveal_strlit(" ");
    }
    let dashed = replace(title, " ", "-");
    let mut res = empty_texts();
    let mut i: usize = 0;
    assert(c.subcommands@.take(0) =~= Seq::<SubcommandDoc>::empty());
    while i < c.subcommands.len()
        invariant
            i <= c.subcommands@.len(),
            dashed@ == replace_all(title@, " "@, "-"@),
            strings_view(res@) == subcommand_entries(c.subcommands@.take(i as int), title@),
        decreases c.subcommands@.len() - i,
    {
        let sc = &c.subcommands[i];
        assert(c.subcommands@.take(i + 1).drop_last() =~= c.subcommands@.take(i as int));
        if !sc.hidden {
            let n = concat3(dashed.as_str(), "-", sc.name.as_str());
            let n = concat2(n.as_str(), "(1)");
            let mut header = empty_texts();
            push_text(&mut header, bold(n.as_str()));
            let mut body = match either_text(&sc.about, &sc.long_about) {
                Some(a) => lines_of(a.as_str()),
                None => empty_texts(),
            };
            push_text(&mut body, owned("\n"));
            push_text(&mut res, list(&header, &body));
        }
        i = i + 1;
    }
    assert(c.subcommands@.take(c.subcommands@.len() as int) =~= c.subcommands@);
    res
}

/// The "See also" entries of the ancestors `parts`: the pages of the first one,
/// the first two, ... words, joined by dashes.
pub open spec fn see_also_entries(parts: Seq<Seq<char>>, n: nat) -> Seq<Seq<char>>
    decreases n,
{
    if n == 0 {
        Seq::empty()
    } else {
        see_also_entries(parts, (n - 1) as nat).push(
            roff_list(seq![roff_bold(join_with(parts.take(n as int), "-"@) + "(1)"@)], Seq::empty()),
        )
    }
}

fn see_also(parts: &Vec<String>, n: usize) -> (r: Vec<String>)
    requires
        n <= parts@.len(),
    ensures
        strings_view(r@) == see_also_entries(strings_view(parts@), n as nat),
{
    let mut res = empty_texts();
    let mut i: usize = 0;
    while i < n
        invariant
            i <= n,
            n <= parts@.len(),
            strings_view(res@) == see_also_entries(strings_view(parts@), i as nat),
        decreases n - i,
    {
        let p = join_first(parts, i + 1, "-");
        assert(parts@.take(i + 1).map_values(|p: String| p@) =~= strings_view(parts@).take(i + 1));
        let name = concat2(p.as_str(), "(1)");
        let mut header = empty_texts();
        push_text(&mut header, bold(name.as_str()));
        let body = empty_texts();
        push_text(&mut res, list(&header, &body));
        i = i + 1;
    }
    res
}

/// Some argument is shown.
pub open spec fn has_visible_args(c: CommandDoc) -> bool {
    exists|i: int| 0 <= i < c.args@.len() && !(#[trigger] c.args@[i]).hidden
}

/// Some subcommand is shown.
pub open spec fn has_visible_subcommands(c: CommandDoc) -> bool {
    exists|i: int| 0 <= i < c.subcommands@.len() && !(#[trigger] c.subcommands@[i]).hidden
}

fn any_visible_arg(c: &CommandDoc) -> (r: bool)
    ensures
        r == has_visible_args(*c),
{
    let mut i: usize = 0;
    while i < c.args.len()
        invariant
            i <= c.args@.len(),
            forall|j: int| 0 <= j < i ==> (#[trigger] c.args@[j]).hidden,
        decreases c.args@.len() - i,
    {
        if !c.args[i].hidden {
            return true;
        }
        i = i + 1;
    }
    false
}

fn any_visible_subcommand(c: &CommandDoc) -> (r: bool)
    ensures
        r == has_visible_subcommands(*c),
{
    let mut i: usize = 0;
    while i < c.subcommands.len()
        invariant
            i <= c.subcommands@.len(),
            forall|j: int| 0 <= j < i ==> (#[trigger] c.subcommands@[j]).hidden,
        decreases c.subcommands@.len() - i,
    {
        if !c.subcommands[i].hidden {
            return true;
        }
        i = i + 1;
    }
    false
}

/// A section whose content is the entries one after the other.
pub open spec fn section(title: Seq<char>, entries: Seq<Seq<char>>) -> Seq<(Seq<char>, Seq<char>)> {
    seq![(title, concat_all(entries))]
}

/// The sections of the page `title` of the command `c` under the root command
/// `root`: name, synopsis, description; options and subcommands when some are
/// shown; the text after the help; the pages of the ancestors; the version and the
/// authors of the root.
pub open spec fn man_sections(c: CommandDoc, title: Seq<char>, root: CommandDoc) -> Seq<(Seq<char>, Seq<char>)> {
    let words = split_on(title, ' ');
    section("Name"@, seq![about_of(c, title)]) + section("Synopsis"@, seq![synopsis_of(c, title)]) + section(
        "Description"@,
        description_of(c),
    ) + (if has_visible_args(c) {
        section("Options"@, options_of(c))
    } else {
        Seq::empty()
    }) + (if has_visible_subcommands(c) {
        section(subcommand_heading_of(c), subcommand_entries(c.subcommands@, title))
    } else {
        Seq::empty()
    }) + (if c.after_help is Some {
        section("Extra"@, after_help_of(c))
    } else {
        Seq::empty()
    }) + (if title != root.name@ && words.len() > 1 {
        section("See also"@, see_also_entries(words, (words.len() - 1) as nat))
    } else {
        Seq::empty()
    }) + (match root.version {
        Some(v) => section("Version"@, seq!["v"@ + v@]),
        None => Seq::empty(),
    }) + (match root.author {
        Some(a) => section("Author(s)"@, seq![a@]),
        None => Seq::empty(),
    })
}

/// The manual page of the command `c`, titled `title`, under the root command
/// `root` (in section 1).
pub open spec fn man_page(c: CommandDoc, title: Seq<char>, root: CommandDoc) -> Seq<char> {
    roff_page(root.name@, 1, man_sections(c, title, root))
}

fn concat_texts(v: &Vec<String>) -> (r: String)
    ensures
        r@ == concat_all(strings_view(v@)),
{
    let mut r = String::new();
    let mut i: usize = 0;
    assert(strings_view(v@).take(0) =~= Seq::<Seq<char>>::empty());
    while i < v.len()
        invariant
            i <= v@.len(),
            r@ == concat_all(strings_view(v@).take(i as int)),
        decreases v@.len() - i,
    {
        r.append(v[i].as_str());
        assert(strings_view(v@).take(i + 1).drop_last() =~= strings_view(v@).take(i as int));
        i = i + 1;
    }
    assert(strings_view(v@).take(v@.len() as int) =~= strings_view(v@));
    r
}

fn push_section(secs: &mut Vec<(String, String)>, title: &str, entries: &Vec<String>)
    ensures
        sections_view(final(secs)@) == sections_view(old(secs)@) + section(title@, strings_view(entries@)),
{
    let ghost before = sections_view(secs@);
    let content = concat_texts(entries);
    secs.push((owned(title), content));
    assert(sections_view(secs@) =~= before + section(title@, strings_view(entries@)));
}

fn one_text(s: String) -> (r: Vec<String>)
    ensures
        strings_view(r@) == seq![s@],
{
    let mut v = empty_texts();
    push_text(&mut v, s);
    assert(strings_view(v@) =~= seq![s@]);
    v
}

/// The manual page of the command `c`, titled `title`, under the root command
/// `root`.
pub fn render_man(c: &CommandDoc, title: &str, root: &CommandDoc) -> (r: String)
    ensures
        r@ == man_page(*c, title@, *root),
{
    let mut secs: Vec<(String, String)> = Vec::new();
    assert(sections_view(secs@) =~= Seq::<(Seq<char>, Seq<char>)>::empty());
    push_section(&mut secs, "Name", &one_text(about(c, title)));
    push_section(&mut secs, "Synopsis", &one_text(synopsis(c, title)));
    push_section(&mut secs, "Description", &description(c));
    let ghost s1 = sections_view(secs@);
    if any_visible_arg(c) {
        push_section(&mut secs, "Options", &options(c));
    }
    let ghost s2 = sections_view(secs@);
    if any_visible_subcommand(c) {
        let heading = subcommand_heading(c);
        push_section(&mut secs, heading.as_str(), &subcommands(c, title));
    }
    let ghost s3 = sections_view(secs@);
    if let Some(t) = &c.after_help {
        push_section(&mut secs, "Extra", &paragraphs_of(t.as_str()));
    }
    let ghost s4 = sections_view(secs@);
    let words = split_char(title, ' ');
    proof {
        crate::text::lemma_split_nonempty(title@, ' ');
        assert(strings_view(words@) =~= split_on(title@, ' '));
    }
    if !crate::text::str_equal(title, root.name.as_str()) && words.len() > 1 {
        push_section(&mut secs, "See also", &see_also(&words, words.len() - 1));
    }
    let ghost s5 = sections_view(secs@);
    if let Some(v) = &root.version {
        push_section(&mut secs, "Version", &one_text(concat2("v", v.as_str())));
    }
    let ghost s6 = sections_view(secs@);
    if let Some(a) = &root.author {
        push_section(&mut secs, "Author(s)", &one_text(owned(a.as_str())));
    }
    proof {
        assert(sections_view(secs@) =~= man_sections(*c, title@, *root));
    }
    render_page(root.name.as_str(), 1, &secs)
}

} // verus!
