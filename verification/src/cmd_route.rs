//! `oxide route create|edit|list|view`.
use vstd::prelude::*;

use crate::cmd_alias::{tab_align, tab_aligned};
use crate::colors::{AnsiStyle, ColorScheme};
use crate::config::Config;
use crate::error::{ConfigErr, ConfigError};
use crate::text::{concat2, concat3, owned};

verus! {

/// A page size must be positive.
pub fn check_limit(limit: u32) -> (r: Result<(), String>)
    ensures
        match r {
            Ok(_) => limit >= 1,
            Err(m) => limit < 1 && m@ == "--limit must be greater than 0"@,
        },
{
    if limit < 1 {
        return Err(owned("--limit must be greater than 0"));
    }
    Ok(())
}

/// Create a new route (not offered yet).
pub struct CmdRouteCreate {
    pub route: String,
    pub router: String,
    pub vpc: String,
    pub project: String,
    pub organization: String,
    pub description: String,
}

impl CmdRouteCreate {
    /// What the command prints.
    pub fn run(&self) -> (r: String)
        ensures
            r@ == "Not implemented yet."@,
    {
        owned("Not implemented yet.")
    }
}

/// Edit route settings (not offered yet).
pub struct CmdRouteEdit {}

impl CmdRouteEdit {
    /// What the command prints.
    pub fn run(&self) -> (r: String)
        ensures
            r@ == "Not implemented yet."@,
    {
        owned("Not implemented yet.")
    }
}

/// What the route list shows of a route; `last_updated` is the time since its last
/// change, as a person reads it.
pub struct RouteSummary {
    pub name: String,
    pub description: String,
    pub kind: String,
    pub destination: String,
    pub target: String,
    pub router_id: String,
    pub last_updated: String,
}

/// The row of a route: its cells separated by tabs, the last one in gray.
pub open spec fn route_row(cs: ColorScheme, r: RouteSummary) -> Seq<char> {
    r.name@ + "\t"@ + r.description@ + "\t"@ + r.kind@ + "\t"@ + r.destination@ + "\t"@ + r.target@ + "\t"@
        + r.router_id@ + "\t"@ + cs.styled(AnsiStyle::Fixed(242), r.last_updated@) + "\n"@
}

/// The header row of the route list.
pub open spec fn route_header() -> Seq<char> {
    "NAME\tDESCRTIPTION\tKIND\tDESTINATION\tTARGET\tROUTER\tLAST UPDATED\n"@
}

/// The rows of the routes `rs`, after the header.
pub open spec fn route_rows(cs: ColorScheme, rs: Seq<RouteSummary>) -> Seq<char>
    decreases rs.len(),
{
    if rs.len() == 0 {
        route_header()
    } else {
        route_rows(cs, rs.drop_last()) + route_row(cs, rs.last())
    }
}

/// List routes owned by a router.
pub struct CmdRouteList {
    pub router: String,
    pub vpc: String,
    pub project: String,
    pub organization: String,
    /// Maximum number of routes to list.
    pub limit: u32,
    /// Make additional HTTP requests to fetch all pages of routes.
    pub paginate: bool,
    /// Output JSON.
    pub json: bool,
}

impl CmdRouteList {
    /// The page size must be positive.
    pub fn check(&self) -> (r: Result<(), String>)
        ensures
            match r {
                Ok(_) => self.limit >= 1,
                Err(m) => self.limit < 1 && m@ == "--limit must be greater than 0"@,
            },
    {
        check_limit(self.limit)
    }

    /// The table printed for the routes: the header and a row per route, aligned in
    /// columns, then an empty line.
    pub fn table(&self, routes: &Vec<RouteSummary>, cs: &ColorScheme) -> (r: String)
        ensures
            r@ == tab_aligned(route_rows(*cs, routes@)) + "\n"@,
    {
        let mut text = owned("NAME\tDESCRTIPTION\tKIND\tDESTINATION\tTARGET\tROUTER\tLAST UPDATED\n");
        let mut i: usize = 0;
        proof {
            assert(routes@.take(0) =~= Seq::<RouteSummary>::empty());
        }
        while i < routes.len()
            invariant
                i <= routes@.len(),
                text@ == route_rows(*cs, routes@.take(i as int)),
            decreases routes@.len() - i,
        {
            let r = &routes[i];
            let a = concat3(r.name.as_str(), "\t", r.description.as_str());
            let b = concat3(a.as_str(), "\t", r.kind.as_str());
            let c = concat3(b.as_str(), "\t", r.destination.as_str());
            let d = concat3(c.as_str(), "\t", r.target.as_str());
            let e = concat3(d.as_str(), "\t", r.router_id.as_str());
            let g = cs.gray(r.last_updated.as_str());
            let f = concat3(e.as_str(), "\t", g.as_str());
            text.append(f.as_str());
            text.append("\n");
            proof {
                assert(routes@.take(i + 1).drop_last() =~= routes@.take(i as int));
                assert(routes@.take(i + 1).last() == routes@[i as int]);
                assert(text@ =~= route_rows(*cs, routes@.take(i as int)) + route_row(*cs, routes@[i as int]));
            }
            i = i + 1;
        }
        proof {
            assert(routes@.take(routes@.len() as int) =~= routes@);
        }
        let table = tab_align(text.as_str());
        concat2(table.as_str(), "\n")
    }
}

/// What the route view shows of a route; `created` and `modified` are the times
/// since then, as a person reads them, when known.
pub struct RouteDetails {
    pub id: String,
    pub name: String,
    pub description: String,
    pub kind: String,
    pub destination: String,
    pub target: String,
    pub router_id: String,
    pub created: Option<String>,
    pub modified: Option<String>,
}

/// The line `label:\tvalue`.
pub open spec fn line(label: Seq<char>, value: Seq<char>) -> Seq<char> {
    label + ":\t"@ + value + "\n"@
}

/// The line of a known optional value, nothing for an unknown one.
pub open spec fn optional_line(label: Seq<char>, v: Option<String>) -> Seq<char> {
    match v {
        Some(t) => line(label, t@),
        None => Seq::empty(),
    }
}

/// The lines of the route view, before alignment.
pub open spec fn route_lines(d: RouteDetails) -> Seq<char> {
    line("id"@, d.id@) + line("name"@, d.name@) + line("description"@, d.description@) + line("kind"@, d.kind@)
        + line("destination"@, d.destination@) + line("target"@, d.target@) + line("router"@, d.router_id@)
        + optional_line("created"@, d.created) + optional_line("modified"@, d.modified)
}

fn push_line(text: &mut String, label: &str, value: &str)
    ensures
        final(text)@ == old(text)@ + line(label@, value@),
{
    let l = concat3(label, ":\t", value);
    text.append(l.as_str());
    text.append("\n");
    proof {
        reveal_strlit("\n");
    }
}

/// View a route.
pub struct CmdRouteView {
    pub route: String,
    pub router: String,
    pub vpc: String,
    pub project: String,
    pub organization: String,
    /// Open the route in the browser.
    pub web: bool,
    /// Output JSON.
    pub json: bool,
}

impl CmdRouteView {
    /// The address that `--web` opens.
    pub fn web_url<C: Config>(&self, config: &C) -> (r: Result<String, ConfigError>)
        requires
            config.valid(),
        ensures
            match config.spec_default_host() {
                Ok(h) => r matches Ok(u) && u@ == "https://"@ + h + "/"@ + self.organization@ + "/"@ + self.project@
                    + "/routes/"@ + self.route@,
                Err(e) => r matches Err(x) && x@ == e,
            },
    {
        let host = config.default_host()?;
        let a = concat3("https://", host.as_str(), "/");
        let b = concat3(a.as_str(), self.organization.as_str(), "/");
        let c = concat3(b.as_str(), self.project.as_str(), "/routes/");
        Ok(concat2(c.as_str(), self.route.as_str()))
    }

    /// The table printed for a route: a `label: value` line per attribute, aligned,
    /// then an empty line.
    pub fn table(&self, d: &RouteDetails) -> (r: String)
        ensures
            r@ == tab_aligned(route_lines(*d)) + "\n"@,
    {
        let mut text = String::new();
        push_line(&mut text, "id", d.id.as_str());
        push_line(&mut text, "name", d.name.as_str());
        push_line(&mut text, "description", d.description.as_str());
        push_line(&mut text, "kind", d.kind.as_str());
        push_line(&mut text, "destination", d.destination.as_str());
        push_line(&mut text, "target", d.target.as_str());
        push_line(&mut text, "router", d.router_id.as_str());
        let ghost fixed = text@;
        if let Some(t) = &d.created {
            push_line(&mut text, "created", t.as_str());
        }
        assert(text@ =~= fixed + optional_line("created"@, d.created));
        let ghost with_created = text@;
        if let Some(t) = &d.modified {
            push_line(&mut text, "modified", t.as_str());
        }
        assert(text@ =~= with_created + optional_line("modified"@, d.modified));
        assert(fixed =~= line("id"@, d.id@) + line("name"@, d.name@) + line("description"@, d.description@) + line(
            "kind"@,
            d.kind@,
        ) + line("destination"@, d.destination@) + line("target"@, d.target@) + line("router"@, d.router_id@));
        assert(text@ =~= route_lines(*d));
        let table = tab_align(text.as_str());
        concat2(table.as_str(), "\n")
    }
}

} // verus!
