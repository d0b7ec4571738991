//! Which requests of the operating system start a shutdown.

use vstd::prelude::*;

verus! {

/// The family of operating systems that the process runs on.
#[derive(Clone, Copy, Debug, PartialEq, Eq, Structural)]
pub enum Platform {
    Unix,
    Windows,
}

/// A place where the operating system lets a process install a handler for a
/// request to stop.
#[derive(Clone, Copy, Debug, PartialEq, Eq, Structural)]
pub enum Hook {
    /// The interrupt signal, as sent from the terminal.
    Interrupt,
    /// The termination signal.
    Terminate,
    /// The console control handler, which receives every console event.
    ConsoleControl,
}

/// The hooks of `platform` at which a shutdown is started, in the order in
/// which handlers are installed.
pub open spec fn default_hooks(platform: Platform) -> Seq<Hook> {
    match platform {
        Platform::Unix => seq![Hook::Interrupt, Hook::Terminate],
        Platform::Windows => seq![Hook::ConsoleControl],
    }
}

/// Lists the hooks at which the system signal handlers are to be installed.
///
/// There is nothing to configure: the answer depends on the platform alone.
/// The caller installs, at each hook, a handler that calls
/// [`terminate`](crate::shutdown::terminate) and nothing else, and goes on to
/// the next hook if the system refuses one.
pub fn init(platform: Platform) -> (hooks: Vec<Hook>)
    ensures
        hooks@ == default_hooks(platform),
{
    let mut hooks: Vec<Hook> = Vec::new();
    match platform {
        Platform::Unix => {
            hooks.push(Hook::Interrupt);
            hooks.push(Hook::Terminate);
        },
        Platform::Windows => {
            hooks.push(Hook::ConsoleControl);
        },
    }
    hooks
}

} // verus!
