//! `oxide project edit`.
use vstd::prelude::*;

use crate::colors::{AnsiStyle, ColorScheme};
use crate::text::{concat2, concat3, owned};

verus! {

/// The body of a project update: an empty field leaves the setting as it is.
pub struct ProjectUpdate {
    pub name: String,
    pub description: String,
}

/// The text of an optional new setting: empty when it is not given.
pub open spec fn or_empty(v: Option<String>) -> Seq<char> {
    match v {
        Some(s) => s@,
        None => Seq::empty(),
    }
}

/// A copy of an optional new setting, empty when it is not given.
pub fn text_or_empty(v: &Option<String>) -> (r: String)
    ensures
        r@ == or_empty(*v),
{
    match v {
        Some(s) => owned(s.as_str()),
        None => String::new(),
    }
}

/// Edit project settings.
pub struct CmdProjectEdit {
    /// The project to edit.
    pub project: String,
    /// The organization that holds the project.
    pub organization: String,
    /// The new name for the project.
    pub new_name: Option<String>,
    /// The new description for the project.
    pub new_description: Option<String>,
}

impl CmdProjectEdit {
    /// The update to send; "nothing to edit" when no new setting is given.
    pub fn update(&self) -> (r: Result<ProjectUpdate, String>)
        ensures
            match r {
                Ok(u) => (self.new_name is Some || self.new_description is Some) && u.name@ == or_empty(self.new_name)
                    && u.description@ == or_empty(self.new_description),
                Err(m) => self.new_name is None && self.new_description is None && m@ == "nothing to edit"@,
            },
    {
        if self.new_name.is_none() && self.new_description.is_none() {
            return Err(owned("nothing to edit"));
        }
        Ok(ProjectUpdate { name: text_or_empty(&self.new_name), description: text_or_empty(&self.new_description) })
    }

    /// What is printed once the project is edited: the old and new full names when
    /// it was renamed, else its full name.
    pub fn edited_message(&self, cs: &ColorScheme) -> (r: String)
        ensures
            r@ == cs.styled(AnsiStyle::Green, "✔"@) + match self.new_name {
                Some(n) => " Edited project "@ + self.organization@ + "/"@ + self.project@ + " -> "@
                    + self.organization@ + "/"@ + n@,
                None => " Edited project "@ + self.organization@ + "/"@ + self.project@,
            },
    {
        let icon = cs.success_icon();
        let a = concat3(icon.as_str(), " Edited project ", self.organization.as_str());
        let b = concat3(a.as_str(), "/", self.project.as_str());
        match &self.new_name {
            Some(n) => {
                let c = concat3(b.as_str(), " -> ", self.organization.as_str());
                let r = concat3(c.as_str(), "/", n.as_str());
                assert(r@ =~= icon@ + (" Edited project "@ + self.organization@ + "/"@ + self.project@
                    + " -> "@ + self.organization@ + "/"@ + n@));
                r
            },
            None => {
                assert(b@ =~= icon@ + (" Edited project "@ + self.organization@ + "/"@ + self.project@));
                b
            },
        }
    }
}

} // verus!
