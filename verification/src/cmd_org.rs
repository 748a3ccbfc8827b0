//! `oxide org view|delete`.
use vstd::prelude::*;

use crate::colors::{AnsiStyle, ColorScheme};
use crate::config::Config;
use crate::confirm::{ConfirmStep, confirm_step, confirm_step_spec, type_to_confirm, type_to_confirm_prompt};
use crate::error::{ConfigErr, ConfigError};
use crate::text::{concat2, concat3};

verus! {

/// View organization.
pub struct CmdOrganizationView {
    /// The organization to view.
    pub organization: String,
    /// Open the organization in the browser.
    pub web: bool,
    /// Output JSON.
    pub json: bool,
}

impl CmdOrganizationView {
    /// The address that `--web` opens: `https://<default host>/<organization>`.
    pub fn web_url<C: Config>(&self, config: &C) -> (r: Result<String, ConfigError>)
        requires
            config.valid(),
        ensures
            match config.spec_default_host() {
                Ok(h) => r matches Ok(u) && u@ == "https://"@ + h + "/"@ + self.organization@,
                Err(e) => r matches Err(x) && x@ == e,
            },
    {
        let host = config.default_host()?;
        let u = concat3("https://", host.as_str(), "/");
        Ok(concat2(u.as_str(), self.organization.as_str()))
    }
}

/// Delete organization.
pub struct CmdOrganizationDelete {
    /// The organization to delete. Can be an ID or name.
    pub organization: String,
    /// Confirm deletion without prompting.
    pub confirm: bool,
}

impl CmdOrganizationDelete {
    /// Before deleting: `--confirm`, or typing the organization's name.
    pub fn begin(&self, can_prompt: bool) -> (r: ConfirmStep)
        ensures
            confirm_step_spec(r, can_prompt, self.confirm, type_to_confirm(self.organization@, "deletion"@), self.organization@),
    {
        let prompt = type_to_confirm_prompt(self.organization.as_str(), "deletion");
        confirm_step(can_prompt, self.confirm, prompt, self.organization.as_str())
    }

    /// What is printed once the organization is deleted.
    pub fn deleted_message(&self, cs: &ColorScheme) -> (r: String)
        ensures
            r@ == cs.styled(AnsiStyle::Red, "✔"@) + " Deleted organization "@ + self.organization@,
    {
        let icon = cs.success_icon_with_color(AnsiStyle::Red);
        concat3(icon.as_str(), " Deleted organization ", self.organization.as_str())
    }
}

} // verus!
