use vstd::prelude::*;

verus! {

/// An operating-system failure reported by a collaborator: a failed
/// path resolution or a failed process spawn. The caller who performed
/// the operation fills in the OS error code (when the OS gave one) and
/// its message.
#[derive(Clone, Debug, PartialEq, Eq)]
pub struct IoError {
    /// The raw operating-system error code, when one was reported.
    pub os_code: Option<i32>,
    /// The operating system's description of the failure.
    pub message: String,
}

/// What one finished process left behind: its exit code (absent when
/// the process was terminated without one) and its captured output
/// streams.
#[derive(Clone, Debug, PartialEq, Eq)]
pub struct CmdOutput {
    /// The exit code the process returned, if any.
    pub code: Option<i32>,
    /// Everything the process wrote to its standard output.
    pub stdout: Vec<u8>,
    /// Everything the process wrote to its standard error.
    pub stderr: Vec<u8>,
}

impl CmdOutput {
    /// Whether the process exited successfully, that is with code zero.
    pub open spec fn spec_success(&self) -> bool {
        self.code == Some(0i32)
    }

    /// Whether the process exited successfully, that is with code zero.
    #[verifier::when_used_as_spec(spec_success)]
    pub fn success(&self) -> (r: bool)
        ensures
            r == self.spec_success(),
    {
        match self.code {
            Some(c) => c == 0,
            None => false,
        }
    }
}

/// The linking error.
#[derive(Clone, Debug, PartialEq, Eq)]
pub enum LinkError {
    /// The linker process ran but exited with a failure; the captured
    /// process result is carried for diagnostics.
    Cmd(CmdOutput),
    /// An operating-system failure: a path could not be resolved, or
    /// the process could not be spawned.
    IO(IoError),
}

/// The general result type.
pub type LinkResult<T> = Result<T, LinkError>;

impl From<CmdOutput> for LinkError {
    /// Wrap a failed process result as a command error.
    fn from(o: CmdOutput) -> (r: Self)
        ensures
            r == LinkError::Cmd(o),
    {
        LinkError::Cmd(o)
    }
}

impl vstd::std_specs::convert::FromSpecImpl<CmdOutput> for LinkError {
    open spec fn obeys_from_spec() -> bool {
        true
    }

    open spec fn from_spec(o: CmdOutput) -> Self {
        LinkError::Cmd(o)
    }
}

impl From<IoError> for LinkError {
    /// Wrap an operating-system failure as an IO error.
    fn from(e: IoError) -> (r: Self)
        ensures
            r == LinkError::IO(e),
    {
        LinkError::IO(e)
    }
}

impl vstd::std_specs::convert::FromSpecImpl<IoError> for LinkError {
    open spec fn obeys_from_spec() -> bool {
        true
    }

    open spec fn from_spec(e: IoError) -> Self {
        LinkError::IO(e)
    }
}

} // verus!
