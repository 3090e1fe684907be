//! The output mode: colourised text for a terminal, JSON for everything else.
use vstd::prelude::*;

verus! {

/// How results are written.
#[derive(Clone, Copy, Debug, PartialEq, Eq, Structural)]
pub enum OutputFormat {
    /// Colourised, human-readable output (the default on a terminal).
    Human,
    /// Machine-readable JSON (the default when stdout is not a terminal).
    Json,
}

/// The output mode chosen: the `--output` flag when given, else human output
/// on a terminal and JSON otherwise.
pub open spec fn chosen_format(flag: Option<OutputFormat>, stdout_is_tty: bool) -> OutputFormat {
    match flag {
        Some(f) => f,
        None => if stdout_is_tty {
            OutputFormat::Human
        } else {
            OutputFormat::Json
        },
    }
}

/// Picks the output mode from the `--output` flag and whether stdout is a terminal.
pub fn choose_format(flag: Option<OutputFormat>, stdout_is_tty: bool) -> (f: OutputFormat)
    ensures
        f == chosen_format(flag, stdout_is_tty),
{
    match flag {
        Some(f) => f,
        None => if stdout_is_tty {
            OutputFormat::Human
        } else {
            OutputFormat::Json
        },
    }
}

/// Writes results in one output mode.
pub struct Printer {
    pub format: OutputFormat,
}

impl Printer {
    /// A printer for the given mode.
    pub fn new(format: OutputFormat) -> (p: Self)
        ensures
            p.format == format,
    {
        Printer { format }
    }

    /// Whether results are written as JSON.
    pub fn is_json(&self) -> (b: bool)
        ensures
            b == (self.format == OutputFormat::Json),
    {
        match self.format {
            OutputFormat::Json => true,
            OutputFormat::Human => false,
        }
    }

    /// Whether labelled status lines are written; only human output has them.
    pub fn shows_status_lines(&self) -> (b: bool)
        ensures
            b == (self.format == OutputFormat::Human),
    {
        match self.format {
            OutputFormat::Json => false,
            OutputFormat::Human => true,
        }
    }
}

} // verus!
