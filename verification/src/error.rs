//! The compositor's error type.
//!
//! It flows through the render hot path — capture, encode, sink — and the session lifecycle.
//! The renderer's own error types are many and concrete; call sites stringify them into
//! [`CompositorError::Renderer`], keeping this enum small and stable.

use vstd::prelude::*;

verus! {

#[verifier::external_type_specification]
#[verifier::external_body]
pub struct ExIoError(std::io::Error);

/// The error of every fallible compositor operation.
#[derive(Debug)]
pub enum CompositorError {
    /// EGL/GLES context, renderbuffer, bind, or read-back failure.
    Renderer(String),
    /// The encoder could not be built or reconfigured.
    Encoder(String),
    /// Reading pixels back from the framebuffer failed.
    Capture(String),
    /// Socket or file I/O.
    Io(std::io::Error),
    /// The session config was malformed or impossible.
    Config(String),
    /// A session was started while one is already running.
    SessionAlreadyActive,
    /// An operation needed an active session but none exists.
    NoActiveSession,
    /// Anything that does not fit the categories above.
    Other(String),
}

impl CompositorError {
    /// An `Other` error carrying `message`.
    pub fn other(message: &str) -> (e: CompositorError)
        ensures
            e matches CompositorError::Other(m) && m@ == message@,
    {
        CompositorError::Other(String::from_str(message))
    }

    /// A renderer error: what was being done, then the renderer's own description of what went
    /// wrong.
    pub fn renderer_err(context: &str, detail: &str) -> (e: CompositorError)
        ensures
            e matches CompositorError::Renderer(m) && m@ == context@ + ": "@ + detail@,
    {
        let text = String::from_str(context).concat(": ").concat(detail);
        CompositorError::Renderer(text)
    }

    /// The human-readable description: a fixed prefix per category, then the detail.
    pub fn message(&self) -> (text: String)
        ensures
            match self {
                CompositorError::Renderer(m) => text@ == "EGL/GLES setup failed: "@ + m@,
                CompositorError::Encoder(m) => text@ == "encoder build failed: "@ + m@,
                CompositorError::Capture(m) => text@ == "frame capture failed: "@ + m@,
                CompositorError::Io(_) => text@.len() >= "io error: "@.len() && text@.subrange(
                    0,
                    "io error: "@.len() as int,
                ) == "io error: "@,
                CompositorError::Config(m) => text@ == "invalid session config: "@ + m@,
                CompositorError::SessionAlreadyActive => text@ == "a session is already active"@,
                CompositorError::NoActiveSession => text@ == "no active session"@,
                CompositorError::Other(m) => text@ == m@,
            },
    {
        match self {
            CompositorError::Renderer(m) => String::from_str("EGL/GLES setup failed: ").concat(m.as_str()),
            CompositorError::Encoder(m) => String::from_str("encoder build failed: ").concat(m.as_str()),
            CompositorError::Capture(m) => String::from_str("frame capture failed: ").concat(m.as_str()),
            CompositorError::Io(e) => {
                let detail = e.to_string();
                let text = String::from_str("io error: ").concat(detail.as_str());
                proof {
                    assert(text@.subrange(0, "io error: "@.len() as int) =~= "io error: "@);
                }
                text
            },
            CompositorError::Config(m) => String::from_str("invalid session config: ").concat(m.as_str()),
            CompositorError::SessionAlreadyActive => String::from_str("a session is already active"),
            CompositorError::NoActiveSession => String::from_str("no active session"),
            CompositorError::Other(m) => m.clone(),
        }
    }
}

impl From<String> for CompositorError {
    fn from(s: String) -> (e: Self) {
        CompositorError::Other(s)
    }
}

impl vstd::std_specs::convert::FromSpecImpl<String> for CompositorError {
    open spec fn obeys_from_spec() -> bool {
        true
    }

    open spec fn from_spec(v: String) -> Self {
        CompositorError::Other(v)
    }
}

impl From<std::io::Error> for CompositorError {
    fn from(e: std::io::Error) -> (r: Self) {
        CompositorError::Io(e)
    }
}

impl vstd::std_specs::convert::FromSpecImpl<std::io::Error> for CompositorError {
    open spec fn obeys_from_spec() -> bool {
        true
    }

    open spec fn from_spec(v: std::io::Error) -> Self {
        CompositorError::Io(v)
    }
}

} // verus!
