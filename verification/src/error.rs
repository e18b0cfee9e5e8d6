//! What can go wrong while the pipeline is set up or a frame is presented.

use vstd::prelude::*;

verus! {

/// `wgpu::TimeOut`, a value without contents: the presentation surface gave
/// no drawable before its timeout.
#[verifier::external_type_specification]
#[verifier::external_body]
pub struct ExTimeOut(wgpu::TimeOut);

/// `std::io::Error`, carried through unread.
#[verifier::external_type_specification]
#[verifier::external_body]
pub struct ExIoError(std::io::Error);

/// The two kinds of failure: one ends the program at start-up, the other
/// costs a frame.
#[derive(Debug, Clone, Copy, PartialEq, Eq, Structural)]
pub enum ErrorKind {
    /// The pipeline could not be set up; nothing can be presented.
    FatalSetup,
    /// One frame could not be presented; the next one may be.
    TransientPresentation,
}

/// A failure of the presentation pipeline.
#[derive(Debug)]
pub enum Error {
    /// No graphics adapter is compatible with the surface.
    NoAdapter,
    /// The swap chain timed out while acquiring the next texture.
    SwapChainTimeout(wgpu::TimeOut),
    /// A shader binary could not be loaded.
    ShaderLoad(std::io::Error),
}

impl Error {
    /// The kind of this failure.
    pub open spec fn spec_kind(&self) -> ErrorKind {
        match *self {
            Error::NoAdapter => ErrorKind::FatalSetup,
            Error::SwapChainTimeout(_) => ErrorKind::TransientPresentation,
            Error::ShaderLoad(_) => ErrorKind::FatalSetup,
        }
    }

    /// What this failure says of itself.
    pub open spec fn spec_message(&self) -> Seq<char> {
        match *self {
            Error::NoAdapter => "Unable to access adapter"@,
            Error::SwapChainTimeout(_) => "Swap chain timed out while acquiring next texture"@,
            Error::ShaderLoad(_) => "Unable to load shader"@,
        }
    }

    /// What this failure says of itself.
    pub fn message(&self) -> (message: &'static str)
        ensures
            message@ == self.spec_message(),
    {
        match self {
            Error::NoAdapter => "Unable to access adapter",
            Error::SwapChainTimeout(_) => "Swap chain timed out while acquiring next texture",
            Error::ShaderLoad(_) => "Unable to load shader",
        }
    }

    /// The kind of this failure.
    #[verifier::when_used_as_spec(spec_kind)]
    pub fn kind(&self) -> (kind: ErrorKind)
        ensures
            kind == self.spec_kind(),
    {
        match self {
            Error::NoAdapter => ErrorKind::FatalSetup,
            Error::SwapChainTimeout(_) => ErrorKind::TransientPresentation,
            Error::ShaderLoad(_) => ErrorKind::FatalSetup,
        }
    }
}

} // verus!
