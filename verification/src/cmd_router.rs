//! `oxide router edit`.
use vstd::prelude::*;

use crate::cmd_project::{or_empty, text_or_empty};
use crate::colors::{AnsiStyle, ColorScheme};
use crate::text::{concat3, owned};

verus! {

/// The body of a router update: an empty field leaves the setting as it is.
pub struct RouterUpdate {
    pub name: String,
    pub description: String,
}

/// Edit router settings.
pub struct CmdRouterEdit {
    /// The router to edit.
    pub router: String,
    /// The VPC that holds the router.
    pub vpc: String,
    /// The project that holds the VPC.
    pub project: String,
    /// The organization that holds the project.
    pub organization: String,
    /// The new name for the router.
    pub new_name: Option<String>,
    /// The new description for the router.
    pub new_description: Option<String>,
}

impl CmdRouterEdit {
    /// The update to send; "nothing to edit" when no new setting is given.
    pub fn update(&self) -> (r: Result<RouterUpdate, String>)
        ensures
            match r {
                Ok(u) => (self.new_name is Some || self.new_description is Some) && u.name@ == or_empty(self.new_name)
                    && u.description@ == or_empty(self.new_description),
                Err(m) => self.new_name is None && self.new_description is None && m@ == "nothing to edit"@,
            },
    {
        if self.new_name.is_none() && self.new_description.is_none() {
            return Err(owned("nothing to edit"));
        }
        Ok(RouterUpdate { name: text_or_empty(&self.new_name), description: text_or_empty(&self.new_description) })
    }

    /// What is printed once the router is edited, under its new name when renamed.
    pub fn edited_message(&self, cs: &ColorScheme) -> (r: String)
        ensures
            r@ == cs.styled(AnsiStyle::Green, "✔"@) + " Edited router "@ + match self.new_name {
                Some(n) => n@,
                None => self.router@,
            } + " in "@ + self.organization@ + "/"@ + self.project@ + " VPC "@ + self.vpc@,
    {
        let icon = cs.success_icon();
        let name = match &self.new_name {
            Some(n) => n.as_str(),
            None => self.router.as_str(),
        };
        let a = concat3(icon.as_str(), " Edited router ", name);
        let b = concat3(a.as_str(), " in ", self.organization.as_str());
        let c = concat3(b.as_str(), "/", self.project.as_str());
        concat3(c.as_str(), " VPC ", self.vpc.as_str())
    }
}

} // verus!
