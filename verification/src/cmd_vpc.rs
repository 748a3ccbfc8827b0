//! `oxide vpc edit`.
use vstd::prelude::*;

use crate::cmd_project::{or_empty, text_or_empty};
use crate::colors::{AnsiStyle, ColorScheme};
use crate::text::{concat3, owned};

verus! {

/// The body of a VPC update: an empty field leaves the setting as it is.
pub struct VpcUpdate {
    pub name: String,
    pub description: String,
    pub dns_name: String,
}

/// Edit VPC settings.
pub struct CmdVpcEdit {
    /// The VPC to edit.
    pub vpc: String,
    /// The project that holds the VPC.
    pub project: String,
    /// The organization that holds the project.
    pub organization: String,
    /// The new name for the VPC.
    pub new_name: Option<String>,
    /// The new description for the VPC.
    pub new_description: Option<String>,
    /// The new DNS name for the VPC.
    pub new_dns_name: Option<String>,
}

impl CmdVpcEdit {
    /// The update to send; "nothing to edit" when no new setting is given.
    pub fn update(&self) -> (r: Result<VpcUpdate, String>)
        ensures
            match r {
                Ok(u) => (self.new_name is Some || self.new_description is Some || self.new_dns_name is Some)
                    && u.name@ == or_empty(self.new_name) && u.description@ == or_empty(self.new_description)
                    && u.dns_name@ == or_empty(self.new_dns_name),
                Err(m) => self.new_name is None && self.new_description is None && self.new_dns_name is None && m@
                    == "nothing to edit"@,
            },
    {
        if self.new_name.is_none() && self.new_description.is_none() && self.new_dns_name.is_none() {
            return Err(owned("nothing to edit"));
        }
        Ok(VpcUpdate {
            name: text_or_empty(&self.new_name),
            description: text_or_empty(&self.new_description),
            dns_name: text_or_empty(&self.new_dns_name),
        })
    }

    /// What is printed once the VPC is edited: the old and new names when it was
    /// renamed.
    pub fn edited_message(&self, cs: &ColorScheme) -> (r: String)
        ensures
            r@ == cs.styled(AnsiStyle::Green, "✔"@) + " Edited VPC "@ + self.vpc@ + match self.new_name {
                Some(n) => " -> "@ + n@,
                None => Seq::empty(),
            } + " in "@ + self.organization@ + "/"@ + self.project@,
    {
        let icon = cs.success_icon();
        let a = concat3(icon.as_str(), " Edited VPC ", self.vpc.as_str());
        let b = match &self.new_name {
            Some(n) => concat3(a.as_str(), " -> ", n.as_str()),
            None => a,
        };
        let c = concat3(b.as_str(), " in ", self.organization.as_str());
        let r = concat3(c.as_str(), "/", self.project.as_str());
        proof {
            let tail = if self.new_name is Some {
                " -> "@ + self.new_name->0@
            } else {
                Seq::<char>::empty()
            };
            assert(b@ =~= icon@ + " Edited VPC "@ + self.vpc@ + tail);
        }
        r
    }
}

} // verus!
