//! The bootstrap state.
//!
//! On start the program decides what it is: a bundle (its own image carries
//! a valid trailer) that must launch its embedded target, or the bare
//! generator.  The shell reads the tail of the running executable's image,
//! decodes it with the trailer codec, and hands the result here; `Runtime`
//! keeps the payload description for the one launch and remembers whether
//! the child was started, which decides whether errors may still be printed.

use vstd::prelude::*;
use vstd::string::StringExecFns;

use crate::trailer::PayloadInfo;

verus! {

/// The process's bootstrap state: the decoded payload description, if the
/// running image is a bundle, and whether the bundled child has been
/// started.
pub struct Runtime {
    payload_info: Option<PayloadInfo>,
    executed: bool,
}

impl Runtime {
    /// The payload description this runtime still holds.
    pub closed spec fn spec_info(&self) -> Option<PayloadInfo> {
        self.payload_info
    }

    /// True when the runtime still holds a payload description: the running
    /// image carried a valid trailer and the launch has not yet consumed it.
    pub open spec fn spec_bundled(&self) -> bool {
        self.spec_info() is Some
    }

    /// True once the bundled child has been started.
    pub closed spec fn spec_executed(&self) -> bool {
        self.executed
    }

    /// A fresh runtime around the payload description decoded from the
    /// running executable's image, `None` when the image is not a bundle.
    pub fn new(payload_info: Option<PayloadInfo>) -> (r: Runtime)
        ensures
            r.spec_info() == payload_info,
            !r.spec_executed(),
    {
        Runtime { payload_info, executed: false }
    }

    /// True when the running image is a bundle: the execution path is taken
    /// instead of the generator path.
    pub fn is_bundled(&self) -> (b: bool)
        ensures
            b == self.spec_bundled(),
    {
        self.payload_info.is_some()
    }

    /// True once the bundled child has been started; from then on the child
    /// owns the terminal and this program prints no more errors of its own.
    pub fn has_run(&self) -> (b: bool)
        ensures
            b == self.spec_executed(),
    {
        self.executed
    }

    /// Hands out the payload description for the one launch, leaving none
    /// behind.
    pub fn take_payload_info(&mut self) -> (r: Option<PayloadInfo>)
        ensures
            r == old(self).spec_info(),
            final(self).spec_info() is None,
            final(self).spec_executed() == old(self).spec_executed(),
    {
        self.payload_info.take()
    }

    /// Records that the child process was started.
    pub fn mark_executed(&mut self)
        ensures
            final(self).spec_executed(),
            final(self).spec_info() == old(self).spec_info(),
    {
        self.executed = true;
    }
}

/// What a bundled invocation should do, decided from the first forwarded
/// argument: the inspection commands are honoured only when inspection is
/// enabled (a debug build); everything else executes the target.
#[derive(Clone, Copy, Debug, PartialEq, Eq, Structural)]
pub enum RunAction {
    /// Print the runtime's own help and exit.
    ShowHelp,
    /// Extract the payload into the current directory without running it.
    ExtractHere,
    /// Launch the bundled target.
    Execute,
}

/// Decides what a bundled invocation does.
pub fn run_action(inspect_enabled: bool, first_arg: Option<&String>) -> (r: RunAction)
    ensures
        r == RunAction::ShowHelp <==> (inspect_enabled && (first_arg matches Some(a) && a@
            == "--rex-help"@)),
        r == RunAction::ExtractHere <==> (inspect_enabled && (first_arg matches Some(a) && a@
            == "--rex-extract"@)),
{
    if inspect_enabled {
        match first_arg {
            Some(a) => {
                let help = String::from_str("--rex-help");
                let extract = String::from_str("--rex-extract");
                if a.eq(&help) {
                    proof {
                        reveal_strlit("--rex-help");
                        reveal_strlit("--rex-extract");
                        assert("--rex-help"@.len() == 10);
                        assert("--rex-extract"@.len() == 13);
                        assert(a@ != "--rex-extract"@);
                    }
                    RunAction::ShowHelp
                } else if a.eq(&extract) {
                    RunAction::ExtractHere
                } else {
                    RunAction::Execute
                }
            },
            None => RunAction::Execute,
        }
    } else {
        RunAction::Execute
    }
}

} // verus!
