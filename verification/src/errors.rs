use vstd::prelude::*;

verus! {

/// Failure taxonomy of the shell client.
#[derive(Clone, Copy, PartialEq, Eq, Debug)]
pub enum Error {
    /// The operating system's graphical environment rejected a wire call.
    PlatformApiFailed(&'static str),
    /// The platform-specific part of a graphics API failed.
    GraphicsApiFailed(&'static str),
    /// An invariant of this layer was violated (allocation failures and the like).
    InternalFailure,
    /// An argument passed to a function is invalid.
    InvalidArgument,
    /// The subsystem is turned off globally.
    SubsystemNotAvailable,
    /// The subsystem state is forced and cannot be changed.
    SubsystemForced,
    /// The requested capability was not compiled in.
    FeatureNotCompiled,
}

impl Error {
    /// The short phrase describing each failure class.
    pub open spec fn spec_describe(&self) -> Seq<char> {
        match self {
            Error::PlatformApiFailed(_) => "platform API failed"@,
            Error::GraphicsApiFailed(_) => "graphics API failed"@,
            Error::InternalFailure => "internal logic failed"@,
            Error::InvalidArgument => "invalid argument"@,
            Error::SubsystemNotAvailable => "the subsystem is not available"@,
            Error::SubsystemForced => "the subsystem state is forced"@,
            Error::FeatureNotCompiled => "feature was not compiled"@,
        }
    }

    /// A human-readable description of the failure.
    pub fn describe(&self) -> (r: &'static str)
        ensures
            r@ == self.spec_describe(),
    {
        match self {
            Error::PlatformApiFailed(_) => "platform API failed",
            Error::GraphicsApiFailed(_) => "graphics API failed",
            Error::InternalFailure => "internal logic failed",
            Error::InvalidArgument => "invalid argument",
            Error::SubsystemNotAvailable => "the subsystem is not available",
            Error::SubsystemForced => "the subsystem state is forced",
            Error::FeatureNotCompiled => "feature was not compiled",
        }
    }

    /// The wire-call context attached to a platform or graphics failure, if any.
    pub fn context(&self) -> (r: Option<&'static str>)
        ensures
            match self {
                Error::PlatformApiFailed(m) => r == Some(*m),
                Error::GraphicsApiFailed(m) => r == Some(*m),
                _ => r.is_none(),
            },
    {
        match self {
            Error::PlatformApiFailed(m) => Some(*m),
            Error::GraphicsApiFailed(m) => Some(*m),
            _ => None,
        }
    }
}

} // verus!
