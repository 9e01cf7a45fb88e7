//! What the command line can set.
use vstd::prelude::*;

verus! {

/// The log level that applies where the command line names none.
pub const DEFAULT_LOGLEVEL: u8 = 2;

/// The options of the command line.
#[derive(Debug, Clone, Copy, PartialEq, Eq, Structural)]
pub struct Cli {
    /// Log level:
    /// 0 quiet,
    /// 1 errors,
    /// 2 warnings,
    /// 3 info,
    pub loglevel: u8,
}

impl Default for Cli {
    fn default() -> (cli: Self)
        ensures
            cli.loglevel == DEFAULT_LOGLEVEL,
    {
        Cli { loglevel: DEFAULT_LOGLEVEL }
    }
}

} // verus!
