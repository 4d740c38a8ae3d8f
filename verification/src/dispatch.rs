//! Items of the client-facing dispatch surface.

use vstd::prelude::*;

use vstd::string::StringExecFns;

verus! {

/// An action that can be sent to the client application's dispatch loop.
#[derive(Clone, Copy, Debug, PartialEq, Eq, Structural)]
pub enum AppAction {
    /// The application initialized.
    AppInit,
    /// Show a dialog that the application is not being run as root.
    ShowNoRootDialog,
    /// The values for memory information did change.
    MeminfoUpdate,
}

/// The client's embedded-server bootstrap.  Running the collector inside
/// the client process is not supported: the client always reports that
/// and relies on the separately started privileged service instead.
pub fn run_server() -> (r: Result<usize, String>)
    ensures
        r matches Err(message) && message@ == "not implemented."@,
{
    Err(String::from_str("not implemented."))
}

} // verus!
