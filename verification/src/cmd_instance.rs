//! `oxide instance disks|start|stop|reboot|edit`.
use vstd::prelude::*;

use crate::colors::{AnsiStyle, ColorScheme};
use crate::confirm::{ConfirmStep, confirm_step, confirm_step_spec, type_to_confirm, type_to_confirm_prompt};
use crate::text::{concat3, owned};

verus! {

/// `organization/project`.
pub open spec fn full_name(organization: Seq<char>, project: Seq<char>) -> Seq<char> {
    organization + "/"@ + project
}

/// The line printed after an action on an instance: the icon, the verb, the
/// instance and where it lives.
pub open spec fn instance_message(icon: Seq<char>, verb: Seq<char>, instance: Seq<char>, organization: Seq<char>, project: Seq<char>) -> Seq<char> {
    icon + " "@ + verb + " instance "@ + instance + " in "@ + full_name(organization, project)
}

fn instance_line(icon: &str, verb: &str, instance: &str, organization: &str, project: &str) -> (r: String)
    ensures
        r@ == instance_message(icon@, verb@, instance@, organization@, project@),
{
    let a = concat3(icon, " ", verb);
    let b = concat3(a.as_str(), " instance ", instance);
    let c = concat3(b.as_str(), " in ", organization);
    concat3(c.as_str(), "/", project)
}

/// List the disks attached to an instance.
pub struct CmdInstanceDisks {
    /// The instance to view the disks for.
    pub instance: String,
    /// The project that holds the instance.
    pub project: String,
    /// The organization that holds the project.
    pub organization: String,
    /// Open the instance in the browser.
    pub web: bool,
    /// Output JSON.
    pub json: bool,
}

/// Start an instance.
pub struct CmdInstanceStart {
    /// The instance to start. Can be an ID or name.
    pub instance: String,
    /// The project that holds the instance.
    pub project: String,
    /// The organization that holds the project.
    pub organization: String,
}

impl CmdInstanceStart {
    /// What is printed once the instance is started.
    pub fn started_message(&self, cs: &ColorScheme) -> (r: String)
        ensures
            r@ == instance_message(
                cs.styled(AnsiStyle::Green, "✔"@),
                "Started"@,
                self.instance@,
                self.organization@,
                self.project@,
            ),
    {
        let icon = cs.success_icon();
        instance_line(icon.as_str(), "Started", self.instance.as_str(), self.organization.as_str(), self.project.as_str())
    }
}

/// Stop an instance.
pub struct CmdInstanceStop {
    /// The instance to stop. Can be an ID or name.
    pub instance: String,
    /// The project that holds the instance.
    pub project: String,
    /// The organization that holds the project.
    pub organization: String,
    /// Confirm stop without prompting.
    pub confirm: bool,
}

impl CmdInstanceStop {
    /// Before stopping: `--confirm`, or typing `organization/project` when asked to
    /// type the instance's name.
    pub fn begin(&self, can_prompt: bool) -> (r: ConfirmStep)
        ensures
            confirm_step_spec(
                r,
                can_prompt,
                self.confirm,
                type_to_confirm(self.instance@, "stop"@),
                full_name(self.organization@, self.project@),
            ),
    {
        let prompt = type_to_confirm_prompt(self.instance.as_str(), "stop");
        let expected = concat3(self.organization.as_str(), "/", self.project.as_str());
        confirm_step(can_prompt, self.confirm, prompt, expected.as_str())
    }

    /// What is printed once the instance is stopped.
    pub fn stopped_message(&self, cs: &ColorScheme) -> (r: String)
        ensures
            r@ == instance_message(
                cs.styled(AnsiStyle::Green, "✘"@),
                "Stopped"@,
                self.instance@,
                self.organization@,
                self.project@,
            ),
    {
        let icon = cs.failure_icon_with_color(AnsiStyle::Green);
        instance_line(icon.as_str(), "Stopped", self.instance.as_str(), self.organization.as_str(), self.project.as_str())
    }
}

/// Reboot an instance.
pub struct CmdInstanceReboot {
    /// The instance to reboot. Can be an ID or name.
    pub instance: String,
    /// The project that holds the instance.
    pub project: String,
    /// The organization that holds the project.
    pub organization: String,
    /// Confirm reboot without prompting.
    pub confirm: bool,
}

impl CmdInstanceReboot {
    /// Before rebooting: `--confirm`, or typing `organization/project` when asked to
    /// type the instance's name.
    pub fn begin(&self, can_prompt: bool) -> (r: ConfirmStep)
        ensures
            confirm_step_spec(
                r,
                can_prompt,
                self.confirm,
                type_to_confirm(self.instance@, "reboot"@),
                full_name(self.organization@, self.project@),
            ),
    {
        let prompt = type_to_confirm_prompt(self.instance.as_str(), "reboot");
        let expected = concat3(self.organization.as_str(), "/", self.project.as_str());
        confirm_step(can_prompt, self.confirm, prompt, expected.as_str())
    }

    /// What is printed once the instance is rebooted.
    pub fn rebooted_message(&self, cs: &ColorScheme) -> (r: String)
        ensures
            r@ == instance_message(
                cs.styled(AnsiStyle::Green, "✔"@),
                "Rebooted"@,
                self.instance@,
                self.organization@,
                self.project@,
            ),
    {
        let icon = cs.success_icon();
        instance_line(icon.as_str(), "Rebooted", self.instance.as_str(), self.organization.as_str(), self.project.as_str())
    }
}

/// Edit instance settings (not offered by the API yet).
pub struct CmdInstanceEdit {}

impl CmdInstanceEdit {
    /// What the command prints.
    pub fn run(&self) -> (r: String)
        ensures
            r@ == "Not implemented yet in omicron."@,
    {
        owned("Not implemented yet in omicron.")
    }
}

} // verus!
