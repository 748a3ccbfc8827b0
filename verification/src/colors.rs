//! Terminal colors: when they are wanted, and how text is painted.
use vstd::prelude::*;

use crate::env::EnvVars;
use crate::text::{decimal, has_substring, contains, owned, str_equal};

verus! {

/// Colors are turned off: `NO_COLOR` is set to something, or `CLICOLOR` is `0`.
pub open spec fn color_disabled(env: EnvVars) -> bool {
    env.value("NO_COLOR"@).len() > 0 || env.value("CLICOLOR"@) == "0"@
}

/// Colors are forced on: `CLICOLOR_FORCE` is set to something other than `0`.
pub open spec fn color_forced(env: EnvVars) -> bool {
    env.value("CLICOLOR_FORCE"@).len() > 0 && env.value("CLICOLOR_FORCE"@) != "0"@
}

/// `TERM` or `COLORTERM` announces 24-bit color.
pub open spec fn true_color(env: EnvVars) -> bool {
    ||| has_substring(env.value("TERM"@), "24bit"@)
    ||| has_substring(env.value("TERM"@), "truecolor"@)
    ||| has_substring(env.value("COLORTERM"@), "24bit"@)
    ||| has_substring(env.value("COLORTERM"@), "truecolor"@)
}

/// Whether the environment turns colors off.
pub fn env_color_disabled(env: &EnvVars) -> (r: bool)
    ensures
        r == color_disabled(*env),
{
    env.get_env_var("NO_COLOR").unicode_len() > 0 || str_equal(env.get_env_var("CLICOLOR").as_str(), "0")
}

/// Whether the environment forces colors on.
pub fn env_color_forced(env: &EnvVars) -> (r: bool)
    ensures
        r == color_forced(*env),
{
    let v = env.get_env_var("CLICOLOR_FORCE");
    v.unicode_len() > 0 && !str_equal(v.as_str(), "0")
}

/// Whether the terminal supports 24-bit color.
pub fn is_true_color_supported(env: &EnvVars) -> (r: bool)
    ensures
        r == true_color(*env),
{
    let term = env.get_env_var("TERM");
    let color_term = env.get_env_var("COLORTERM");
    contains(term.as_str(), "24bit") || contains(term.as_str(), "truecolor") || contains(color_term.as_str(), "24bit")
        || contains(color_term.as_str(), "truecolor")
}

/// Whether the terminal supports 256 colors.
pub fn is_256_color_supported(env: &EnvVars) -> (r: bool)
    ensures
        r == (true_color(*env) || has_substring(env.value("TERM"@), "256"@) || has_substring(
            env.value("COLORTERM"@),
            "256"@,
        )),
{
    let term = env.get_env_var("TERM");
    let color_term = env.get_env_var("COLORTERM");
    is_true_color_supported(env) || contains(term.as_str(), "256") || contains(color_term.as_str(), "256")
}

/// A text style of the terminal.
pub enum AnsiStyle {
    Bold,
    Red,
    Yellow,
    Green,
    Purple,
    Blue,
    Cyan,
    /// One of the 256 fixed colors.
    Fixed(u8),
}

/// The escape sequence that starts a style.
pub open spec fn ansi_prefix(s: AnsiStyle) -> Seq<char> {
    match s {
        AnsiStyle::Bold => "\x1b[1m"@,
        AnsiStyle::Red => "\x1b[31m"@,
        AnsiStyle::Green => "\x1b[32m"@,
        AnsiStyle::Yellow => "\x1b[33m"@,
        AnsiStyle::Blue => "\x1b[34m"@,
        AnsiStyle::Purple => "\x1b[35m"@,
        AnsiStyle::Cyan => "\x1b[36m"@,
        AnsiStyle::Fixed(n) => "\x1b[38;5;"@ + decimal(n as nat) + "m"@,
    }
}

/// `t` painted in the style `s`: the style's escape sequence, the text, the reset sequence.
pub open spec fn painted(s: AnsiStyle, t: Seq<char>) -> Seq<char> {
    ansi_prefix(s) + t + "\x1b[0m"@
}

/// `ansi_term::Style::paint`, displayed: the style's prefix, the text, the reset suffix.
#[verifier::external_body]
fn ansi_paint(style: AnsiStyle, t: &str) -> (r: String)
    ensures
        r@ == painted(style, t@),
{
    let s = match style {
        AnsiStyle::Bold => ansi_term::Style::new().bold(),
        AnsiStyle::Red => ansi_term::Colour::Red.normal(),
        AnsiStyle::Yellow => ansi_term::Colour::Yellow.normal(),
        AnsiStyle::Green => ansi_term::Colour::Green.normal(),
        AnsiStyle::Purple => ansi_term::Colour::Purple.normal(),
        AnsiStyle::Blue => ansi_term::Colour::Blue.normal(),
        AnsiStyle::Cyan => ansi_term::Colour::Cyan.normal(),
        AnsiStyle::Fixed(n) => ansi_term::Colour::Fixed(n).normal(),
    };
    s.paint(t).to_string()
}

/// How the command line colors its output.
pub struct ColorScheme {
    enabled: bool,
    is_256_enabled: bool,
    has_true_color: bool,
}

impl ColorScheme {
    pub closed spec fn is_enabled(&self) -> bool {
        self.enabled
    }

    /// `t` in the style `s` when colors are enabled, unchanged otherwise.
    pub open spec fn styled(&self, s: AnsiStyle, t: Seq<char>) -> Seq<char> {
        if self.is_enabled() {
            painted(s, t)
        } else {
            t
        }
    }

    pub fn new(enabled: bool, is_256_enabled: bool, has_true_color: bool) -> (c: ColorScheme)
        ensures
            c.is_enabled() == enabled,
    {
        ColorScheme { enabled, is_256_enabled, has_true_color }
    }

    fn style(&self, s: AnsiStyle, t: &str) -> (r: String)
        ensures
            r@ == self.styled(s, t@),
    {
        if !self.enabled {
            return owned(t);
        }
        ansi_paint(s, t)
    }

    pub fn bold(&self, t: &str) -> (r: String)
        ensures
            r@ == self.styled(AnsiStyle::Bold, t@),
    {
        self.style(AnsiStyle::Bold, t)
    }

    pub fn red(&self, t: &str) -> (r: String)
        ensures
            r@ == self.styled(AnsiStyle::Red, t@),
    {
        self.style(AnsiStyle::Red, t)
    }

    pub fn yellow(&self, t: &str) -> (r: String)
        ensures
            r@ == self.styled(AnsiStyle::Yellow, t@),
    {
        self.style(AnsiStyle::Yellow, t)
    }

    pub fn green(&self, t: &str) -> (r: String)
        ensures
            r@ == self.styled(AnsiStyle::Green, t@),
    {
        self.style(AnsiStyle::Green, t)
    }

    /// Gray is the fixed color 242.
    pub fn gray(&self, t: &str) -> (r: String)
        ensures
            r@ == self.styled(AnsiStyle::Fixed(242), t@),
    {
        self.style(AnsiStyle::Fixed(242), t)
    }

    pub fn purple(&self, t: &str) -> (r: String)
        ensures
            r@ == self.styled(AnsiStyle::Purple, t@),
    {
        self.style(AnsiStyle::Purple, t)
    }

    pub fn blue(&self, t: &str) -> (r: String)
        ensures
            r@ == self.styled(AnsiStyle::Blue, t@),
    {
        self.style(AnsiStyle::Blue, t)
    }

    pub fn cyan(&self, t: &str) -> (r: String)
        ensures
            r@ == self.styled(AnsiStyle::Cyan, t@),
    {
        self.style(AnsiStyle::Cyan, t)
    }

    /// A green check mark.
    pub fn success_icon(&self) -> (r: String)
        ensures
            r@ == self.styled(AnsiStyle::Green, "✔"@),
    {
        self.green("✔")
    }

    /// A check mark in the given color (plain when colors are disabled).
    pub fn success_icon_with_color(&self, color: AnsiStyle) -> (r: String)
        ensures
            r@ == self.styled(color, "✔"@),
    {
        self.style(color, "✔")
    }

    /// A cross in the given color (plain when colors are disabled).
    pub fn failure_icon_with_color(&self, color: AnsiStyle) -> (r: String)
        ensures
            r@ == self.styled(color, "✘"@),
    {
        self.style(color, "✘")
    }

    /// A yellow exclamation mark.
    pub fn warning_icon(&self) -> (r: String)
        ensures
            r@ == self.styled(AnsiStyle::Yellow, "!"@),
    {
        self.yellow("!")
    }

    /// A red cross.
    pub fn failure_icon(&self) -> (r: String)
        ensures
            r@ == self.styled(AnsiStyle::Red, "✘"@),
    {
        self.red("✘")
    }
}

} // verus!
