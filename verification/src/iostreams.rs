//! The terminal settings of the command line: colors, tty detection overrides,
//! the pager, prompting and the terminal width.
use vstd::prelude::*;

use crate::colors::{
    ColorScheme, color_disabled, color_forced, env_color_disabled, env_color_forced, is_256_color_supported,
    is_true_color_supported, true_color,
};
use crate::env::EnvVars;
use crate::text::{has_substring, has_suffix, owned, parse_i32, parsed_i32, str_equal, ends_with_char, trim_end_matches, strip_all_suffix};

verus! {

/// The width assumed when the terminal cannot be measured.
pub const DEFAULT_WIDTH: i32 = 80;

/// The settings of the terminal streams; what the operating system reports (whether
/// a stream is a terminal, the terminal's size) is handed in by the caller.
pub struct TerminalState {
    pub color_enabled: bool,
    pub is_256_enabled: bool,
    pub has_true_color: bool,
    pub terminal_theme: String,
    pub progress_indicator_enabled: bool,
    pub stdin_tty_override: bool,
    pub stdin_is_tty: bool,
    pub stdout_tty_override: bool,
    pub stdout_is_tty: bool,
    pub stderr_tty_override: bool,
    pub stderr_is_tty: bool,
    pub terminal_width_override: i32,
    pub pager_command: String,
    pub never_prompt: bool,
}

impl TerminalState {
    /// The settings of a process whose streams are terminals as reported, under `env`.
    /// Colors are on when forced, or when not disabled and standard output is a
    /// terminal; 256 colors when true colors are assumed or the terminal reports
    /// them; the pager is `PAGER`.
    pub fn system(env: &EnvVars, stdin_is_tty: bool, stdout_is_tty: bool, stderr_is_tty: bool, assume_true_color: bool) -> (t: TerminalState)
        ensures
            t.color_enabled == (color_forced(*env) || (!color_disabled(*env) && stdout_is_tty)),
            t.has_true_color == (assume_true_color || true_color(*env)),
            t.is_256_enabled == (assume_true_color || true_color(*env) || has_substring(env.value("TERM"@), "256"@)
                || has_substring(env.value("COLORTERM"@), "256"@)),
            t.pager_command@ == env.value("PAGER"@),
            t.progress_indicator_enabled == (stdout_is_tty && stderr_is_tty),
            !t.stdin_tty_override && t.stdin_is_tty == stdin_is_tty,
            t.stdout_tty_override && t.stdout_is_tty == stdout_is_tty,
            t.stderr_tty_override && t.stderr_is_tty == stderr_is_tty,
            t.terminal_width_override == 0,
            !t.never_prompt,
            t.terminal_theme@.len() == 0,
    {
        let color_enabled = env_color_forced(env) || (!env_color_disabled(env) && stdout_is_tty);
        let is_256_enabled = assume_true_color || is_256_color_supported(env);
        let has_true_color = assume_true_color || is_true_color_supported(env);
        TerminalState {
            color_enabled,
            is_256_enabled,
            has_true_color,
            terminal_theme: String::new(),
            progress_indicator_enabled: stdout_is_tty && stderr_is_tty,
            stdin_tty_override: false,
            stdin_is_tty,
            stdout_tty_override: true,
            stdout_is_tty,
            stderr_tty_override: true,
            stderr_is_tty,
            terminal_width_override: 0,
            pager_command: env.get_env_var("PAGER"),
            never_prompt: false,
        }
    }

    /// The terminal theme; `none` when it was not detected.
    pub fn terminal_theme(&self) -> (r: String)
        ensures
            r@ == if self.terminal_theme@.len() == 0 { "none"@ } else { self.terminal_theme@ },
    {
        if self.terminal_theme.unicode_len() == 0 {
            return owned("none");
        }
        owned(self.terminal_theme.as_str())
    }

    /// Records the theme of the terminal: `none` without colors or behind a pager,
    /// else `dark` or `light` as the probe found (`None`: the probe failed).
    pub fn detect_terminal_theme(&mut self, pager_running: bool, probe_dark: Option<bool>) -> (r: String)
        ensures
            r@ == final(self).terminal_theme@,
            r@ == if !old(self).color_enabled || pager_running {
                "none"@
            } else {
                match probe_dark {
                    Some(true) => "dark"@,
                    Some(false) => "light"@,
                    None => "none"@,
                }
            },
    {
        let theme = if !self.color_enabled || pager_running {
            owned("none")
        } else {
            match probe_dark {
                Some(true) => owned("dark"),
                Some(false) => owned("light"),
                None => owned("none"),
            }
        };
        self.terminal_theme = owned(theme.as_str());
        theme
    }

    pub fn set_color_enabled(&mut self, color_enabled: bool)
        ensures
            *final(self) == (TerminalState { color_enabled, ..*old(self) }),
    {
        self.color_enabled = color_enabled;
    }

    pub fn set_stdin_tty(&mut self, is_tty: bool)
        ensures
            *final(self) == (TerminalState { stdin_tty_override: true, stdin_is_tty: is_tty, ..*old(self) }),
    {
        self.stdin_tty_override = true;
        self.stdin_is_tty = is_tty;
    }

    /// Whether standard input is a terminal: the override if set, else `detected`.
    pub fn is_stdin_tty(&self, detected: bool) -> (r: bool)
        ensures
            r == if self.stdin_tty_override { self.stdin_is_tty } else { detected },
    {
        if self.stdin_tty_override {
            return self.stdin_is_tty;
        }
        detected
    }

    pub fn set_stdout_tty(&mut self, is_tty: bool)
        ensures
            *final(self) == (TerminalState { stdout_tty_override: true, stdout_is_tty: is_tty, ..*old(self) }),
    {
        self.stdout_tty_override = true;
        self.stdout_is_tty = is_tty;
    }

    /// Whether standard output is a terminal: the override if set, else `detected`.
    pub fn is_stdout_tty(&self, detected: bool) -> (r: bool)
        ensures
            r == if self.stdout_tty_override { self.stdout_is_tty } else { detected },
    {
        if self.stdout_tty_override {
            return self.stdout_is_tty;
        }
        detected
    }

    pub fn set_stderr_tty(&mut self, is_tty: bool)
        ensures
            *final(self) == (TerminalState { stderr_tty_override: true, stderr_is_tty: is_tty, ..*old(self) }),
    {
        self.stderr_tty_override = true;
        self.stderr_is_tty = is_tty;
    }

    pub fn set_pager(&mut self, pager_command: String)
        ensures
            *final(self) == (TerminalState { pager_command, ..*old(self) }),
    {
        self.pager_command = pager_command;
    }

    pub fn get_pager(&self) -> (r: String)
        ensures
            r@ == self.pager_command@,
    {
        owned(self.pager_command.as_str())
    }

    /// Whether to start the pager: there is a pager command, it is not `cat`, and
    /// standard output is a terminal.
    pub fn should_start_pager(&self, stdout_detected: bool) -> (r: bool)
        ensures
            r == (self.pager_command@.len() > 0 && self.pager_command@ != "cat"@ && (if self.stdout_tty_override {
                self.stdout_is_tty
            } else {
                stdout_detected
            })),
    {
        !(self.pager_command.unicode_len() == 0 || str_equal(self.pager_command.as_str(), "cat") || !self.is_stdout_tty(
            stdout_detected,
        ))
    }

    /// Whether the user may be prompted: prompting is not turned off, and both
    /// standard input and standard output are terminals.
    pub fn can_prompt(&self, stdin_detected: bool, stdout_detected: bool) -> (r: bool)
        ensures
            r == (!self.never_prompt && (if self.stdin_tty_override { self.stdin_is_tty } else { stdin_detected }) && (
            if self.stdout_tty_override {
                self.stdout_is_tty
            } else {
                stdout_detected
            })),
    {
        if self.never_prompt {
            return false;
        }
        self.is_stdin_tty(stdin_detected) && self.is_stdout_tty(stdout_detected)
    }

    pub fn get_never_prompt(&self) -> (r: bool)
        ensures
            r == self.never_prompt,
    {
        self.never_prompt
    }

    pub fn set_never_prompt(&mut self, never_prompt: bool)
        ensures
            *final(self) == (TerminalState { never_prompt, ..*old(self) }),
    {
        self.never_prompt = never_prompt;
    }

    /// The width of the terminal: the override when positive, else the measured
    /// width, else 80.
    pub fn terminal_width(&self, measured: Option<i32>) -> (r: i32)
        ensures
            r == if self.terminal_width_override > 0 {
                self.terminal_width_override
            } else {
                match measured {
                    Some(w) => w,
                    None => DEFAULT_WIDTH,
                }
            },
    {
        if self.terminal_width_override > 0 {
            return self.terminal_width_override;
        }
        match measured {
            Some(w) => w,
            None => DEFAULT_WIDTH,
        }
    }

    /// Forces terminal-style output (`OXIDE_FORCE_TTY=spec`): colors follow the
    /// environment, standard output counts as a terminal, and the width becomes the
    /// number `spec` names, else the measured width. When `spec` is a percentage
    /// (`N%`) and the width was measured, the percentage text is returned for the
    /// caller to apply to the width.
    pub fn force_terminal(&mut self, spec: &str, env: &EnvVars, measured: Option<i32>) -> (r: Option<String>)
        ensures
            *final(self) == (TerminalState {
                color_enabled: !color_disabled(*env),
                stdout_tty_override: true,
                stdout_is_tty: true,
                terminal_width_override: final(self).terminal_width_override,
                ..*old(self)
            }),
            match parsed_i32(spec@) {
                Some(i) => final(self).terminal_width_override == i && r is None,
                None => match measured {
                    Some(w) => final(self).terminal_width_override == w && (if has_suffix(spec@, "%"@) {
                        r matches Some(p) && p@ == strip_all_suffix(spec@, "%"@)
                    } else {
                        r is None
                    }),
                    None => final(self).terminal_width_override == old(self).terminal_width_override && r is None,
                },
            },
    {
        self.color_enabled = !env_color_disabled(env);
        self.stdout_tty_override = true;
        self.stdout_is_tty = true;
        if let Some(i) = parse_i32(spec) {
            self.terminal_width_override = i;
            return None;
        }
        match measured {
            Some(w) => {
                self.terminal_width_override = w;
            },
            None => {
                return None;
            },
        }
        proof {
            reveal_strlit("%");
            assert("%"@ =~= seq!['%']);
        }
        if ends_with_char(spec, '%') {
            assert(has_suffix(spec@, "%"@) == (spec@.len() > 0 && spec@.last() == '%')) by {
                if spec@.len() > 0 {
                    assert(spec@.skip(spec@.len() - 1) =~= seq![spec@.last()]);
                }
            }
            Some(trim_end_matches(spec, "%"))
        } else {
            assert(!has_suffix(spec@, "%"@)) by {
                if spec@.len() > 0 && has_suffix(spec@, "%"@) {
                    assert(spec@.skip(spec@.len() - 1)[0] == spec@.last());
                }
            }
            None
        }
    }

    pub fn set_terminal_width_override(&mut self, width: i32)
        ensures
            *final(self) == (TerminalState { terminal_width_override: width, ..*old(self) }),
    {
        self.terminal_width_override = width;
    }

    /// The color scheme of these settings.
    pub fn color_scheme(&self) -> (c: ColorScheme)
        ensures
            c.is_enabled() == self.color_enabled,
    {
        ColorScheme::new(self.color_enabled, self.is_256_enabled, self.has_true_color)
    }
}

} // verus!
