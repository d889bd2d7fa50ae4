use vstd::prelude::*;

verus! {

/// Fatal conditions met while bringing up the audio output and the viewer.
#[derive(Debug, Clone, Copy, PartialEq, Eq, Structural)]
pub enum ProgramError {
    /// No usable audio sink exists.
    NoOutputDevice,
    /// The windowing layer failed to start or run.
    EframeError,
}

impl ProgramError {
    /// A one-line description for the operator.
    pub fn message(&self) -> (r: &'static str)
        ensures
            *self == ProgramError::NoOutputDevice ==> r@ == "there's no available output device"@,
            *self == ProgramError::EframeError ==> r@ == "the viewer window could not be run"@,
    {
        match self {
            ProgramError::NoOutputDevice => "there's no available output device",
            ProgramError::EframeError => "the viewer window could not be run",
        }
    }
}

} // verus!
