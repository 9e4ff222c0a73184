//! How much the program says, and where.

use vstd::prelude::*;

verus! {

/// How talkative the program is.
#[derive(Clone, Copy, Debug, PartialEq, Eq, Structural)]
pub enum Printer {
    Silent,
    Quiet,
    Default,
    Verbose,
}

/// Where progress bars are drawn.
#[derive(Clone, Copy, Debug, PartialEq, Eq, Structural)]
pub enum DrawTarget {
    /// Nowhere.
    Hidden,
    /// On standard output.
    Stdout,
}

/// Standard output, switched on or off.
#[derive(Clone, Copy, Debug, PartialEq, Eq, Structural)]
pub enum Stdout {
    Enabled,
    Disabled,
}

/// Standard error, switched on or off.
#[derive(Clone, Copy, Debug, PartialEq, Eq, Structural)]
pub enum Stderr {
    Enabled,
    Disabled,
}

impl Printer {
    /// Where progress bars are drawn: on standard output at the default
    /// level, and nowhere at every other, the verbose one included, where
    /// they would run into the log.
    pub fn target(&self) -> (r: DrawTarget)
        ensures
            r == (if *self == Printer::Default {
                DrawTarget::Stdout
            } else {
                DrawTarget::Hidden
            }),
    {
        match self {
            Printer::Silent => DrawTarget::Hidden,
            Printer::Quiet => DrawTarget::Hidden,
            Printer::Default => DrawTarget::Stdout,
            Printer::Verbose => DrawTarget::Hidden,
        }
    }

    /// Standard output is on at the default and the verbose level.
    pub fn stdout(&self) -> (r: Stdout)
        ensures
            r == (if *self == Printer::Default || *self == Printer::Verbose {
                Stdout::Enabled
            } else {
                Stdout::Disabled
            }),
    {
        match self {
            Printer::Silent => Stdout::Disabled,
            Printer::Quiet => Stdout::Disabled,
            Printer::Default => Stdout::Enabled,
            Printer::Verbose => Stdout::Enabled,
        }
    }

    /// Standard error is on at the default and the verbose level.
    pub fn stderr(&self) -> (r: Stderr)
        ensures
            r == (if *self == Printer::Default || *self == Printer::Verbose {
                Stderr::Enabled
            } else {
                Stderr::Disabled
            }),
    {
        match self {
            Printer::Silent => Stderr::Disabled,
            Printer::Quiet => Stderr::Disabled,
            Printer::Default => Stderr::Enabled,
            Printer::Verbose => Stderr::Enabled,
        }
    }
}

impl Stdout {
    /// What writing `s` puts on standard output: `s` as a line of its own
    /// where the stream is on, nothing where it is off.
    pub fn write_str(&self, s: &str) -> (r: Option<String>)
        ensures
            *self == Stdout::Enabled ==> r is Some && r->Some_0@ == s@ + "\n"@,
            *self == Stdout::Disabled ==> r is None,
    {
        match self {
            Stdout::Enabled => Some(crate::text::concat2(s, "\n")),
            Stdout::Disabled => None,
        }
    }
}

impl Stderr {
    /// What writing `s` puts on standard error: `s` as a line of its own
    /// where the stream is on, nothing where it is off.
    pub fn write_str(&self, s: &str) -> (r: Option<String>)
        ensures
            *self == Stderr::Enabled ==> r is Some && r->Some_0@ == s@ + "\n"@,
            *self == Stderr::Disabled ==> r is None,
    {
        match self {
            Stderr::Enabled => Some(crate::text::concat2(s, "\n")),
            Stderr::Disabled => None,
        }
    }
}

} // verus!
