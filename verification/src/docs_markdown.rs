//! The markdown documentation of a command: the markdown events of its page, which
//! `pulldown_cmark_to_cmark` renders.
use vstd::prelude::*;

use pulldown_cmark::HeadingLevel::H3;
use pulldown_cmark::LinkType::Inline;
use pulldown_cmark::{Event, Tag};

use crate::docs_markdown::MdEvent::{End, Html, Start, Text};
use crate::docs_markdown::MdTag::{Heading3, Item, Link, List, Paragraph};

use crate::docs::{ArgDoc, CommandDoc, SubcommandDoc, subcommand_names};
use crate::text::{
    concat2, concat3, join_first, join_with, owned, replace, replace_all, split_char, split_on, str_equal,
    string_push, strip_all_prefix, trim, trim_start_matches, trim_ws,
};

verus! {

/// A markdown element that starts and ends.
pub enum MdTag {
    /// A third-level heading.
    Heading3,
    Paragraph,
    /// A bullet list.
    List,
    Item,
    /// An inline link to this address.
    Link(String),
}

/// A markdown event.
pub enum MdEvent {
    Start(MdTag),
    End(MdTag),
    Text(String),
    Html(String),
}

/// The model of an `MdTag`.
pub enum MdTagV {
    Heading3,
    Paragraph,
    List,
    Item,
    Link(Seq<char>),
}

/// The model of an `MdEvent`.
pub enum MdEventV {
    Start(MdTagV),
    End(MdTagV),
    Text(Seq<char>),
    Html(Seq<char>),
}

pub open spec fn tag_view(t: MdTag) -> MdTagV {
    match t {
        MdTag::Heading3 => MdTagV::Heading3,
        MdTag::Paragraph => MdTagV::Paragraph,
        MdTag::List => MdTagV::List,
        MdTag::Item => MdTagV::Item,
        MdTag::Link(u) => MdTagV::Link(u@),
    }
}

pub open spec fn event_view(e: MdEvent) -> MdEventV {
    match e {
        MdEvent::Start(t) => MdEventV::Start(tag_view(t)),
        MdEvent::End(t) => MdEventV::End(tag_view(t)),
        MdEvent::Text(s) => MdEventV::Text(s@),
        MdEvent::Html(s) => MdEventV::Html(s@),
    }
}

pub open spec fn events_view(v: Seq<MdEvent>) -> Seq<MdEventV> {
    v.map_values(|e: MdEvent| event_view(e))
}

/// The markdown text that `pulldown_cmark_to_cmark::cmark` writes for `events`.
pub uninterp spec fn cmark_text(events: Seq<MdEventV>) -> Seq<char>;

/// `pulldown_cmark_to_cmark::cmark` over the events, each made into the
/// `pulldown_cmark` event it stands for, written into a `String`. `cmark` fails only
/// with an error of the formatter it writes to, and writing to a `String` never
/// fails (as std's `fmt::format` documents), so the text always comes back.
#[verifier::external_body]
fn render_cmark(events: &Vec<MdEvent>) -> (r: Option<String>)
    ensures
        r is Some,
        r matches Some(t) ==> t@ == cmark_text(events_view(events@)),
{
    let tag = |t: &MdTag| match t { Heading3 => Tag::Heading(H3, None, vec![]), Paragraph => Tag::Paragraph, List => Tag::List(None), Item => Tag::Item, Link(u) => Tag::Link(Inline, u.clone().into(), "".into()) };
    let mut out = String::new();
    pulldown_cmark_to_cmark::cmark(events.iter().map(|e| match e { Start(t) => Event::Start(tag(t)), End(t) => Event::End(tag(t)), Text(s) => Event::Text(s.clone().into()), Html(s) => Event::Html(s.clone().into()) }), &mut out).ok().map(|_| out)
}

/// A heading.
pub open spec fn heading(t: Seq<char>) -> Seq<MdEventV> {
    seq![MdEventV::Start(MdTagV::Heading3), MdEventV::Text(t), MdEventV::End(MdTagV::Heading3)]
}

/// A paragraph.
pub open spec fn paragraph(t: Seq<char>) -> Seq<MdEventV> {
    seq![MdEventV::Start(MdTagV::Paragraph), MdEventV::Text(t), MdEventV::End(MdTagV::Paragraph)]
}

/// An item of a list that links `text` to `url`.
pub open spec fn link_item(text: Seq<char>, url: Seq<char>) -> Seq<MdEventV> {
    seq![
        MdEventV::Start(MdTagV::Item),
        MdEventV::Start(MdTagV::Link(url)),
        MdEventV::Text(text),
        MdEventV::End(MdTagV::Link(url)),
        MdEventV::End(MdTagV::Item),
    ]
}

/// The links to the subcommands `names` of the page `title`.
pub open spec fn subcommand_links(title: Seq<char>, names: Seq<Seq<char>>) -> Seq<MdEventV>
    decreases names.len(),
{
    if names.len() == 0 {
        Seq::empty()
    } else {
        subcommand_links(title, names.drop_last()) + link_item(
            title + " "@ + names.last(),
            "./"@ + replace_all(title, " "@, "_"@) + "_"@ + names.last(),
        )
    }
}

/// How an argument's flags are shown: `-s`, `--long`, or `-s/--long`.
pub open spec fn arg_flags(a: ArgDoc) -> Seq<char> {
    (match a.short {
        Some(c) => seq!['-', c],
        None => Seq::empty(),
    }) + (match a.long {
        Some(l) => (if a.short is Some { "/"@ } else { Seq::empty() }) + "--"@ + l@,
        None => Seq::empty(),
    })
}

/// The text of optional help, empty when there is none.
pub open spec fn text_of(v: Option<String>) -> Seq<char> {
    match v {
        Some(s) => s@,
        None => Seq::empty(),
    }
}

/// The definition entries of the arguments `args`, separated by newlines.
pub open spec fn option_entries(args: Seq<ArgDoc>) -> Seq<char>
    decreases args.len(),
{
    if args.len() == 0 {
        Seq::empty()
    } else {
        option_entries(args.drop_last()) + (if args.len() > 1 { "\n"@ } else { Seq::empty() }) + "   <dt><code>"@
            + arg_flags(args.last()) + "</code></dt>\n   <dd>"@ + text_of(args.last().help) + "</dd>\n"@
    }
}

/// The HTML definition list of the options.
pub open spec fn options_html(args: Seq<ArgDoc>) -> Seq<char> {
    "<dl class=\"flags\">\n"@ + option_entries(args) + "</dl>\n\n"@
}

/// The text of the long description without the short one, leading dots and
/// surrounding white space.
pub open spec fn about_body(long_about: Seq<char>, about: Seq<char>) -> Seq<char> {
    trim_ws(strip_all_prefix(strip_all_prefix(long_about, about), "."@))
}

/// The links to the ancestors of a page whose title has the words `words`: the
/// titles made of the first `2..=n` words.
pub open spec fn parent_links(words: Seq<Seq<char>>, n: nat) -> Seq<MdEventV>
    decreases n,
{
    if n < 2 {
        Seq::empty()
    } else {
        let parent = join_with(words.take(n as int), " "@);
        parent_links(words, (n - 1) as nat) + link_item(parent, "./"@ + replace_all(parent, " "@, "_"@))
    }
}

/// The "See also" part of the page `title` of command `name`: none for the root
/// and its direct subcommands, else links to the ancestors below the root.
pub open spec fn see_also(title: Seq<char>, name: Seq<char>) -> Seq<MdEventV> {
    let words = split_on(title, ' ');
    let first = words[0] + " "@;
    if title == name || strip_all_prefix(title, first) == name {
        Seq::empty()
    } else {
        heading("See also"@) + seq![MdEventV::Start(MdTagV::List)] + (if words.len() > 2 {
            parent_links(words, (words.len() - 1) as nat)
        } else {
            Seq::empty()
        }) + seq![MdEventV::End(MdTagV::List)]
    }
}

/// The markdown events of the page `title` of the command `c`: its description, its
/// subcommands, its options, its long description and its ancestors.
pub open spec fn markdown_events(c: CommandDoc, title: Seq<char>) -> Seq<MdEventV> {
    about_part(c) + subcommands_part(c, title) + options_part(c) + long_about_part(c) + see_also(title, c.name@)
}

fn push_event(v: &mut Vec<MdEvent>, e: MdEvent)
    ensures
        events_view(final(v)@) == events_view(old(v)@).push(event_view(e)),
{
    let ghost before = v@;
    v.push(e);
    assert(events_view(v@) =~= events_view(before).push(event_view(e)));
}

fn push_heading(v: &mut Vec<MdEvent>, t: &str)
    ensures
        events_view(final(v)@) == events_view(old(v)@) + heading(t@),
{
    let ghost before = events_view(v@);
    push_event(v, MdEvent::Start(MdTag::Heading3));
    push_event(v, MdEvent::Text(owned(t)));
    push_event(v, MdEvent::End(MdTag::Heading3));
    assert(events_view(v@) =~= before + heading(t@));
}

fn push_paragraph(v: &mut Vec<MdEvent>, t: &str)
    ensures
        events_view(final(v)@) == events_view(old(v)@) + paragraph(t@),
{
    let ghost before = events_view(v@);
    push_event(v, MdEvent::Start(MdTag::Paragraph));
    push_event(v, MdEvent::Text(owned(t)));
    push_event(v, MdEvent::End(MdTag::Paragraph));
    assert(events_view(v@) =~= before + paragraph(t@));
}

fn push_link_item(v: &mut Vec<MdEvent>, text: &str, url: &str)
    ensures
        events_view(final(v)@) == events_view(old(v)@) + link_item(text@, url@),
{
    let ghost before = events_view(v@);
    push_event(v, MdEvent::Start(MdTag::Item));
    push_event(v, MdEvent::Start(MdTag::Link(owned(url))));
    push_event(v, MdEvent::Text(owned(text)));
    push_event(v, MdEvent::End(MdTag::Link(owned(url))));
    push_event(v, MdEvent::End(MdTag::Item));
    assert(events_view(v@) =~= before + link_item(text@, url@));
}

/// The flags of an argument as the options list shows them.
fn flags_text(a: &ArgDoc) -> (r: String)
    ensures
        r@ == arg_flags(*a),
{
    let mut def = String::new();
    if let Some(c) = a.short {
        string_push(&mut def, '-');
        string_push(&mut def, c);
    }
    let ghost after_short = def@;
    if let Some(l) = &a.long {
        if a.short.is_some() {
            def.append("/");
        }
        def.append("--");
        def.append(l.as_str());
    }
    proof {
        reveal_strlit("/");
        reveal_strlit("--");
        if a.short is Some {
            assert(after_short =~= seq!['-', a.short->0]);
        } else {
            assert(after_short =~= Seq::<char>::empty());
        }
        assert(def@ =~= arg_flags(*a));
    }
    def
}

/// The HTML list of the options.
fn options_list(args: &Vec<ArgDoc>) -> (r: String)
    ensures
        r@ == options_html(args@),
{
    let mut html = owned("<dl class=\"flags\">\n");
    let ghost start = html@;
    let mut i: usize = 0;
    assert(args@.take(0) =~= Seq::<ArgDoc>::empty());
    while i < args.len()
        invariant
            i <= args@.len(),
            html@ == start + option_entries(args@.take(i as int)),
        decreases args@.len() - i,
    {
        let ghost before = html@;
        if i > 0 {
            html.append("\n");
        }
        let def = flags_text(&args[i]);
        let help = match &args[i].help {
            Some(h) => owned(h.as_str()),
            None => String::new(),
        };
        html.append("   <dt><code>");
        html.append(def.as_str());
        html.append("</code></dt>\n   <dd>");
        html.append(help.as_str());
        html.append("</dd>\n");
        proof {
            reveal_strlit("\n");
            let t = args@.take(i + 1);
            assert(t.drop_last() =~= args@.take(i as int));
            assert(t.last() == args@[i as int]);
            let sep = if i > 0 { "\n"@ } else { Seq::<char>::empty() };
            assert(html@ =~= before + sep + "   <dt><code>"@ + arg_flags(args@[i as int]) + "</code></dt>\n   <dd>"@
                + text_of(args@[i as int].help) + "</dd>\n"@);
            assert(html@ =~= start + option_entries(t));
        }
        i = i + 1;
    }
    assert(args@.take(args@.len() as int) =~= args@);
    html.append("</dl>\n\n");
    html
}

/// The link items to the subcommands of the page `title`.
fn push_subcommand_links(v: &mut Vec<MdEvent>, title: &str, subs: &Vec<SubcommandDoc>)
    ensures
        events_view(final(v)@) == events_view(old(v)@) + subcommand_links(title@, subcommand_names(subs@)),
{
    let ghost start = events_view(v@);
    proof {
        reveal_strlit(" ");
    }
    let under = replace(title, " ", "_");
    let mut i: usize = 0;
    assert(subcommand_names(subs@.take(0)) =~= Seq::<Seq<char>>::empty());
    while i < subs.len()
        invariant
            i <= subs@.len(),
            under@ == replace_all(title@, " "@, "_"@),
            events_view(v@) == start + subcommand_links(title@, subcommand_names(subs@.take(i as int))),
        decreases subs@.len() - i,
    {
        let name = subs[i].name.as_str();
        let text = concat3(title, " ", name);
        let url = concat3("./", under.as_str(), "_");
        let url = concat2(url.as_str(), name);
        push_link_item(v, text.as_str(), url.as_str());
        proof {
            let ns = subcommand_names(subs@.take(i + 1));
            assert(ns.drop_last() =~= subcommand_names(subs@.take(i as int)));
            assert(ns.last() == subs@[i as int].name@);
            assert(events_view(v@) =~= start + subcommand_links(title@, ns));
        }
        i = i + 1;
    }
    assert(subs@.take(subs@.len() as int) =~= subs@);
}

/// The link items to the ancestors below the root of a page with the title words
/// `words`.
fn push_parent_links(v: &mut Vec<MdEvent>, words: &Vec<String>, n: usize)
    requires
        n <= words@.len(),
    ensures
        events_view(final(v)@) == events_view(old(v)@) + parent_links(words@.map_values(|s: String| s@), n as nat),
{
    let ghost ws = words@.map_values(|s: String| s@);
    let ghost start = events_view(v@);
    proof {
        reveal_strlit(" ");
    }
    let mut i: usize = 1;
    while i < n
        invariant
            1 <= i,
            i <= n || i == 1,
            n <= words@.len(),
            ws == words@.map_values(|s: String| s@),
            events_view(v@) == start + parent_links(ws, i as nat),
        decreases n - i,
    {
        let k = i + 1;
        proof {
            reveal_strlit(" ");
        }
        let parent = join_first(words, k, " ");
        assert(words@.take(k as int).map_values(|s: String| s@) =~= ws.take(k as int));
        let url = replace(parent.as_str(), " ", "_");
        let url = concat2("./", url.as_str());
        push_link_item(v, parent.as_str(), url.as_str());
        assert(events_view(v@) =~= start + parent_links(ws, k as nat));
        i = k;
    }
    proof {
        if n < 2 {
            assert(parent_links(ws, i as nat) =~= Seq::<MdEventV>::empty());
            assert(parent_links(ws, n as nat) =~= Seq::<MdEventV>::empty());
            assert(events_view(v@) =~= start);
        }
    }
}

/// The events of the description paragraph.
pub open spec fn about_part(c: CommandDoc) -> Seq<MdEventV> {
    match c.about {
        Some(a) => paragraph(a@),
        None => Seq::empty(),
    }
}

/// The events of the list of subcommands.
pub open spec fn subcommands_part(c: CommandDoc, title: Seq<char>) -> Seq<MdEventV> {
    if c.subcommands@.len() > 0 {
        heading("Subcommands"@) + seq![MdEventV::Start(MdTagV::List)] + subcommand_links(
            title,
            subcommand_names(c.subcommands@),
        ) + seq![MdEventV::End(MdTagV::List)]
    } else {
        Seq::empty()
    }
}

/// The events of the list of options.
pub open spec fn options_part(c: CommandDoc) -> Seq<MdEventV> {
    if c.args@.len() > 0 {
        heading("Options"@) + seq![MdEventV::Html(options_html(c.args@))]
    } else {
        Seq::empty()
    }
}

/// The events of the long description.
pub open spec fn long_about_part(c: CommandDoc) -> Seq<MdEventV> {
    match c.long_about {
        Some(l) => heading("About"@) + paragraph(about_body(l@, text_of(c.about))),
        None => Seq::empty(),
    }
}

fn push_about(v: &mut Vec<MdEvent>, c: &CommandDoc)
    ensures
        events_view(final(v)@) == events_view(old(v)@) + about_part(*c),
{
    if let Some(a) = &c.about {
        push_paragraph(v, a.as_str());
    } else {
        assert(events_view(v@) =~= events_view(v@) + about_part(*c));
    }
}

fn push_subcommands(v: &mut Vec<MdEvent>, c: &CommandDoc, title: &str)
    ensures
        events_view(final(v)@) == events_view(old(v)@) + subcommands_part(*c, title@),
{
    let ghost before = events_view(v@);
    if c.subcommands.len() > 0 {
        push_heading(v, "Subcommands");
        push_event(v, MdEvent::Start(MdTag::List));
        push_subcommand_links(v, title, &c.subcommands);
        push_event(v, MdEvent::End(MdTag::List));
        assert(events_view(v@) =~= before + subcommands_part(*c, title@));
    } else {
        assert(events_view(v@) =~= before + subcommands_part(*c, title@));
    }
}

fn push_options(v: &mut Vec<MdEvent>, c: &CommandDoc)
    ensures
        events_view(final(v)@) == events_view(old(v)@) + options_part(*c),
{
    let ghost before = events_view(v@);
    if c.args.len() > 0 {
        push_heading(v, "Options");
        let html = options_list(&c.args);
        push_event(v, MdEvent::Html(html));
        assert(events_view(v@) =~= before + options_part(*c));
    } else {
        assert(events_view(v@) =~= before + options_part(*c));
    }
}

fn push_long_about(v: &mut Vec<MdEvent>, c: &CommandDoc)
    ensures
        events_view(final(v)@) == events_view(old(v)@) + long_about_part(*c),
{
    let ghost before = events_view(v@);
    if let Some(l) = &c.long_about {
        push_heading(v, "About");
        let about = match &c.about {
            Some(a) => owned(a.as_str()),
            None => String::new(),
        };
        let body = if about.unicode_len() > 0 {
            trim_start_matches(l.as_str(), about.as_str())
        } else {
            owned(l.as_str())
        };
        proof {
            reveal_strlit(".");
        }
        let body = trim_start_matches(body.as_str(), ".");
        let body = trim(body.as_str());
        push_paragraph(v, body.as_str());
        assert(events_view(v@) =~= before + long_about_part(*c));
    } else {
        assert(events_view(v@) =~= before + long_about_part(*c));
    }
}

fn push_see_also(v: &mut Vec<MdEvent>, c: &CommandDoc, title: &str)
    ensures
        events_view(final(v)@) == events_view(old(v)@) + see_also(title@, c.name@),
{
    let ghost before = events_view(v@);
    let words = split_char(title, ' ');
    let ghost ws = words@.map_values(|s: String| s@);
    proof {
        crate::text::lemma_split_nonempty(title@, ' ');
        assert(ws =~= split_on(title@, ' '));
        reveal_strlit(" ");
    }
    let first = concat2(words[0].as_str(), " ");
    let rest = trim_start_matches(title, first.as_str());
    if !(str_equal(title, c.name.as_str()) || str_equal(rest.as_str(), c.name.as_str())) {
        push_heading(v, "See also");
        push_event(v, MdEvent::Start(MdTag::List));
        let ghost mid = events_view(v@);
        if words.len() > 2 {
            push_parent_links(v, &words, words.len() - 1);
        } else {
            assert(events_view(v@) =~= mid + Seq::<MdEventV>::empty());
        }
        push_event(v, MdEvent::End(MdTag::List));
        assert(events_view(v@) =~= before + see_also(title@, c.name@));
    } else {
        assert(events_view(v@) =~= before + see_also(title@, c.name@));
    }
}

/// The markdown events of the page `title` of the command `c`.
pub fn markdown_page_events(c: &CommandDoc, title: &str) -> (r: Vec<MdEvent>)
    ensures
        events_view(r@) == markdown_events(*c, title@),
{
    let mut v: Vec<MdEvent> = Vec::new();
    assert(events_view(v@) =~= Seq::<MdEventV>::empty());
    push_about(&mut v, c);
    assert(events_view(v@) =~= about_part(*c));
    push_subcommands(&mut v, c, title);
    push_options(&mut v, c);
    push_long_about(&mut v, c);
    push_see_also(&mut v, c, title);
    assert(events_view(v@) =~= markdown_events(*c, title@));
    v
}

/// The markdown of the page `title` of the command `c`; the renderer does not fail.
pub fn app_to_markdown(c: &CommandDoc, title: &str) -> (r: Option<String>)
    ensures
        r matches Some(t) && t@ == cmark_text(markdown_events(*c, title@)),
{
    let events = markdown_page_events(c, title);
    render_cmark(&events)
}

/// A character as it stands in a page's address: a space becomes `_`.
pub open spec fn address_char(c: char) -> char {
    if c == ' ' {
        '_'
    } else {
        c
    }
}

/// Replacing each space by `_` keeps the length and maps each character by
/// `address_char`.
pub proof fn lemma_spaces_to_underscores(s: Seq<char>)
    ensures
        replace_all(s, " "@, "_"@).len() == s.len(),
        forall|j: int| 0 <= j < s.len() ==> #[trigger] replace_all(s, " "@, "_"@)[j] == address_char(s[j]),
    decreases s.len(),
{
    reveal_strlit(" ");
    reveal_strlit("_");
    if s.len() > 0 {
        lemma_spaces_to_underscores(s.skip(1));
        let r = replace_all(s, " "@, "_"@);
        let rest = replace_all(s.skip(1), " "@, "_"@);
        if s[0] == ' ' {
            assert(s.take(1) =~= " "@);
            assert(r == "_"@ + rest);
        } else {
            assert(s.take(1)[0] != " "@[0]);
            assert(r == seq![s[0]] + rest);
        }
        assert forall|j: int| 0 <= j < s.len() implies #[trigger] r[j] == address_char(s[j]) by {
            if j > 0 {
                assert(r[j] == rest[j - 1]);
                assert(s.skip(1)[j - 1] == s[j]);
            }
        }
    }
}

/// The `i`-th subcommand's link item stands at `5 * i` in the links.
pub proof fn lemma_subcommand_link_at(title: Seq<char>, names: Seq<Seq<char>>, i: int)
    requires
        0 <= i < names.len(),
    ensures
        subcommand_links(title, names).len() == 5 * names.len(),
        subcommand_links(title, names).subrange(5 * i, 5 * i + 5) == link_item(
            title + " "@ + names[i],
            "./"@ + replace_all(title, " "@, "_"@) + "_"@ + names[i],
        ),
    decreases names.len(),
{
    let n = names.len() as int;
    let front = names.drop_last();
    let all = subcommand_links(title, names);
    let last = link_item(title + " "@ + names.last(), "./"@ + replace_all(title, " "@, "_"@) + "_"@ + names.last());
    if i < n - 1 {
        lemma_subcommand_link_at(title, front, i);
        let part = subcommand_links(title, front);
        assert(all == part + last);
        assert(all.subrange(5 * i, 5 * i + 5) =~= part.subrange(5 * i, 5 * i + 5));
    } else {
        if n > 1 {
            lemma_subcommand_link_at(title, front, 0);
        }
        let part = subcommand_links(title, front);
        assert(part.len() == 5 * (n - 1));
        assert(all.subrange(5 * i, 5 * i + 5) =~= last);
    }
}

/// The link to the `i`-th subcommand of the page `title` goes to `./`, then the
/// title with each space made `_`, then `_` and the subcommand's name; so where the
/// name holds no space, neither does the address.
pub proof fn law_subcommand_link_address(title: Seq<char>, names: Seq<Seq<char>>, i: int)
    requires
        0 <= i < names.len(),
    ensures
        subcommand_links(title, names)[5 * i + 1] matches MdEventV::Start(MdTagV::Link(u)) && {
            &&& u.len() == title.len() + names[i].len() + 3
            &&& u[0] == '.' && u[1] == '/'
            &&& forall|j: int| 0 <= j < title.len() ==> u[2 + j] == #[trigger] address_char(title[j])
            &&& u[title.len() + 2int] == '_'
            &&& u.skip(title.len() + 3int) == names[i]
            &&& (forall|j: int| 0 <= j < names[i].len() ==> names[i][j] != ' ') ==> forall|j: int|
                0 <= j < u.len() ==> #[trigger] u[j] != ' '
        },
{
    reveal_strlit("./");
    reveal_strlit("_");
    lemma_subcommand_link_at(title, names, i);
    lemma_spaces_to_underscores(title);
    let under = replace_all(title, " "@, "_"@);
    let u = "./"@ + under + "_"@ + names[i];
    let links = subcommand_links(title, names);
    assert(links[5 * i + 1] == links.subrange(5 * i, 5 * i + 5)[1]);
    assert(links[5 * i + 1] == MdEventV::Start(MdTagV::Link(u)));
    assert forall|j: int| 0 <= j < title.len() implies u[2 + j] == #[trigger] address_char(title[j]) by {
        assert(u[2 + j] == under[j]);
    }
    assert(u.skip(title.len() + 3int) =~= names[i]);
    if forall|j: int| 0 <= j < names[i].len() ==> names[i][j] != ' ' {
        assert forall|j: int| 0 <= j < u.len() implies #[trigger] u[j] != ' ' by {
            if 2 <= j < title.len() + 2 {
                assert(u[j] == address_char(title[j - 2]));
            } else if j >= title.len() + 3 {
                assert(u[j] == names[i][j - title.len() - 3]);
            }
        }
    }
}

} // verus!
