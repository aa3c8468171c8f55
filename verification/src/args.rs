//! What the host's command line hands the engine: at most a file to open.

use vstd::prelude::*;

verus! {

/// The parsed command line.  The host fills it from whatever argument
/// parser it uses and opens the named file (or an empty buffer) with it.
pub struct CliArgs {
    pub file_path: Option<String>,
}

} // verus!
