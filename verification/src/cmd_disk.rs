//! `oxide disk attach|detach|edit`.
use vstd::prelude::*;

use crate::cmd_instance::full_name;
use crate::colors::{AnsiStyle, ColorScheme};
use crate::text::{concat3, owned};

verus! {

/// The line printed after attaching or detaching a disk.
pub open spec fn disk_message(icon: Seq<char>, action: Seq<char>, disk: Seq<char>, instance: Seq<char>, organization: Seq<char>, project: Seq<char>) -> Seq<char> {
    icon + " "@ + action + " disk "@ + disk + " "@ + (if action == "Attached"@ { "to"@ } else { "from"@ })
        + " instance "@ + instance + " in project "@ + full_name(organization, project)
}

fn disk_line(icon: &str, attached: bool, disk: &str, instance: &str, organization: &str, project: &str) -> (r: String)
    ensures
        r@ == disk_message(icon@, if attached { "Attached"@ } else { "Detached"@ }, disk@, instance@, organization@, project@),
{
    proof {
        reveal_strlit("Attached");
        reveal_strlit("Detached");
        assert("Attached"@[0] != "Detached"@[0]);
    }
    let a = if attached {
        concat3(icon, " Attached disk ", disk)
    } else {
        concat3(icon, " Detached disk ", disk)
    };
    let b = if attached {
        concat3(a.as_str(), " to instance ", instance)
    } else {
        concat3(a.as_str(), " from instance ", instance)
    };
    let c = concat3(b.as_str(), " in project ", organization);
    let r = concat3(c.as_str(), "/", project);
    proof {
        reveal_strlit(" Attached disk ");
        reveal_strlit(" Detached disk ");
        reveal_strlit(" to instance ");
        reveal_strlit(" from instance ");
        reveal_strlit(" ");
        reveal_strlit(" disk ");
        reveal_strlit("to");
        reveal_strlit("from");
        reveal_strlit(" instance ");
        let act = if attached { "Attached"@ } else { "Detached"@ };
        assert(r@ =~= disk_message(icon@, act, disk@, instance@, organization@, project@));
    }
    r
}

/// Attach a disk to an instance.
pub struct CmdDiskAttach {
    /// The disk to attach.
    pub disk: String,
    /// The instance to attach the disk to.
    pub instance: String,
    /// The project that holds the disk and instance.
    pub project: String,
    /// The organization that holds the project.
    pub organization: String,
}

impl CmdDiskAttach {
    /// What is printed once the disk is attached.
    pub fn attached_message(&self, cs: &ColorScheme) -> (r: String)
        ensures
            r@ == disk_message(
                cs.styled(AnsiStyle::Green, "✔"@),
                "Attached"@,
                self.disk@,
                self.instance@,
                self.organization@,
                self.project@,
            ),
    {
        let icon = cs.success_icon();
        disk_line(icon.as_str(), true, self.disk.as_str(), self.instance.as_str(), self.organization.as_str(), self.project.as_str())
    }
}

/// Detach a disk from an instance.
pub struct CmdDiskDetach {
    /// The disk to detach.
    pub disk: String,
    /// The instance to detach the disk from.
    pub instance: String,
    /// The project that holds the disk and instance.
    pub project: String,
    /// The organization that holds the project.
    pub organization: String,
}

impl CmdDiskDetach {
    /// What is printed once the disk is detached.
    pub fn detached_message(&self, cs: &ColorScheme) -> (r: String)
        ensures
            r@ == disk_message(
                cs.styled(AnsiStyle::Red, "✔"@),
                "Detached"@,
                self.disk@,
                self.instance@,
                self.organization@,
                self.project@,
            ),
    {
        let icon = cs.success_icon_with_color(AnsiStyle::Red);
        disk_line(icon.as_str(), false, self.disk.as_str(), self.instance.as_str(), self.organization.as_str(), self.project.as_str())
    }
}

/// Edit a disk (not offered by the API yet).
pub struct CmdDiskEdit {}

impl CmdDiskEdit {
    /// What the command prints.
    pub fn run(&self) -> (r: String)
        ensures
            r@ == "Not implemented yet in omicron."@,
    {
        owned("Not implemented yet in omicron.")
    }
}

} // verus!
