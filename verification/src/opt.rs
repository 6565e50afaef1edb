//! Configuration of the built-in TFTP service that the engine runs.

use vstd::prelude::*;

verus! {

/// Options for the engine's built-in TFTP server.  The root directory is
/// carried as a plain path string; the process wrapper converts it to an
/// OS path where the engine is started.
#[derive(Clone, Debug)]
pub struct OptTftp {
    /// "TFTP server name" string, as in the DHCP option of that name.
    pub name: Option<String>,
    /// Root directory of the built-in TFTP server.
    pub root: Option<String>,
    /// BOOTP filename, for use with TFTP boot.
    pub bootfile: Option<String>,
}

impl Default for OptTftp {
    /// TFTP service disabled: no name, no root, no boot file.
    fn default() -> (r: OptTftp)
        ensures
            r.name is None,
            r.root is None,
            r.bootfile is None,
    {
        OptTftp { name: None, root: None, bootfile: None }
    }
}

} // verus!
