//! The `generate` command: the names and the front matter of the documentation pages.
use vstd::prelude::*;

use crate::text::{concat2, concat3, owned, replace, replace_all};

verus! {

/// Generate markdown documentation.
pub struct CmdGenerateMarkdown {
    /// The directory of the generated files; empty: standard output.
    pub dir: String,
}

/// Generate manual pages.
pub struct CmdGenerateManPages {
    /// The directory of the generated files; empty: standard output.
    pub dir: String,
}

/// The path of a command among its parents: the parent's path and the name joined by
/// `sep`, or the name alone for the root.
pub open spec fn command_path(parent: Seq<char>, name: Seq<char>, sep: Seq<char>) -> Seq<char> {
    if parent.len() == 0 {
        name
    } else {
        parent + sep + name
    }
}

/// The names of a documentation page.
pub struct PageNames {
    /// The command's path, as handed to its subcommands.
    pub path: String,
    /// The file of the page.
    pub filename: String,
    /// The title of the page: the path with spaces.
    pub title: String,
}

fn page_names(parent: &str, name: &str, sep: &str, extension: &str) -> (r: PageNames)
    requires
        sep@.len() > 0,
    ensures
        r.path@ == command_path(parent@, name@, sep@),
        r.filename@ == command_path(parent@, name@, sep@) + extension@,
        r.title@ == replace_all(command_path(parent@, name@, sep@), sep@, " "@),
{
    let path = if parent.unicode_len() == 0 {
        owned(name)
    } else {
        concat3(parent, sep, name)
    };
    let filename = concat2(path.as_str(), extension);
    let title = replace(path.as_str(), sep, " ");
    PageNames { path, filename, title }
}

impl CmdGenerateMarkdown {
    /// The names of the markdown page of command `name` under `parent`: paths joined
    /// by `_`, files ending in `.md`.
    pub fn page_names(&self, parent: &str, name: &str) -> (r: PageNames)
        ensures
            r.path@ == command_path(parent@, name@, "_"@),
            r.filename@ == command_path(parent@, name@, "_"@) + ".md"@,
            r.title@ == replace_all(command_path(parent@, name@, "_"@), "_"@, " "@),
    {
        proof {
            reveal_strlit("_");
        }
        page_names(parent, name, "_", ".md")
    }

    /// The markdown page: its front matter (title, description, layout), then `body`.
    pub fn page(&self, title: &str, about: &str, body: &str) -> (r: String)
        ensures
            r@ == "---\ntitle: \""@ + title@ + "\"\ndescription: \""@ + about@ + "\"\nlayout: manual\n---\n\n"@ + body@,
    {
        let mut r = concat3("---\ntitle: \"", title, "\"\ndescription: \"");
        r.append(about);
        r.append("\"\nlayout: manual\n---\n\n");
        r.append(body);
        r
    }
}

impl CmdGenerateManPages {
    /// The names of the manual page of command `name` under `parent`: paths joined
    /// by `-`, files ending in `.1`.
    pub fn page_names(&self, parent: &str, name: &str) -> (r: PageNames)
        ensures
            r.path@ == command_path(parent@, name@, "-"@),
            r.filename@ == command_path(parent@, name@, "-"@) + ".1"@,
            r.title@ == replace_all(command_path(parent@, name@, "-"@), "-"@, " "@),
    {
        proof {
            reveal_strlit("-");
        }
        page_names(parent, name, "-", ".1")
    }
}

} // verus!
