//! The operating-system seam: the whole surface the core may reach the OS through. Windows
//! implements it for real; everywhere else gets [`StubPlatform`], which refuses everything politely
//! so the window still opens on a development machine.

use vstd::prelude::*;

use crate::text::dec_int;

verus! {

/// What a [`PlatformError`] is, as a value.
pub enum PlatformErrorView {
    Unsupported { capability: Seq<char> },
    Os { capability: Seq<char>, detail: Seq<char> },
}

/// Why a platform call could not be completed.
#[derive(Clone, Debug, PartialEq, Eq)]
pub enum PlatformError {
    /// This platform does not implement the capability at all. The expected answer on the
    /// development machine, not a bug.
    Unsupported {
        /// The capability that was asked for, for the log line.
        capability: &'static str,
    },
    /// The OS was asked and refused, or answered with something unusable.
    Os {
        /// What was being attempted.
        capability: &'static str,
        /// The OS's own description, already in words.
        detail: String,
    },
}

impl View for PlatformError {
    type V = PlatformErrorView;

    open spec fn view(&self) -> PlatformErrorView {
        match self {
            PlatformError::Unsupported { capability } => PlatformErrorView::Unsupported {
                capability: capability@,
            },
            PlatformError::Os { capability, detail } => PlatformErrorView::Os {
                capability: capability@,
                detail: detail@,
            },
        }
    }
}

/// What a platform error says, in words.
pub open spec fn platform_error_text(e: PlatformErrorView) -> Seq<char> {
    match e {
        PlatformErrorView::Unsupported { capability } => capability
            + " is not supported on this platform"@,
        PlatformErrorView::Os { capability, detail } => capability + " failed: "@ + detail,
    }
}

impl PlatformError {
    /// The error in words, as the log and the window show it.
    pub fn text(&self) -> (s: String)
        ensures
            s@ == platform_error_text(self@),
    {
        match self {
            PlatformError::Unsupported { capability } => {
                let mut s = String::from_str(capability);
                s.append(" is not supported on this platform");
                s
            },
            PlatformError::Os { capability, detail } => {
                let mut s = String::from_str(capability);
                s.append(" failed: ");
                s.append(detail.as_str());
                s
            },
        }
    }
}

/// A liveness readout from the platform layer: something that could only have come from a real
/// OS call.
#[derive(Clone, Copy, Debug, PartialEq, Eq)]
pub struct PlatformInfo {
    /// Primary display size in pixels.
    pub screen: (i32, i32),
    /// Current cursor position in virtual-screen coordinates.
    pub cursor: (i32, i32),
}

/// Everything the app is allowed to ask the operating system for.
pub trait Platform: Send + Sync {
    /// A short name for logs: `"windows"`, `"stub"`.
    fn name(&self) -> &'static str;

    /// Read a liveness readout from the OS.
    fn info(&self) -> Result<PlatformInfo, PlatformError>;
}

/// The implementation for anything that is not Windows: every call reports `Unsupported` rather
/// than panicking or pretending to succeed.
#[derive(Clone, Copy, Debug, Default)]
pub struct StubPlatform;

impl StubPlatform {
    /// Create the stub platform.
    pub fn new() -> (p: StubPlatform) {
        StubPlatform
    }
}

impl Platform for StubPlatform {
    fn name(&self) -> (n: &'static str)
        ensures
            n@ == "stub"@,
    {
        "stub"
    }

    fn info(&self) -> (r: Result<PlatformInfo, PlatformError>)
        ensures
            r matches Err(e) && e@ == (PlatformErrorView::Unsupported {
                capability: "platform info"@,
            }),
    {
        Err(PlatformError::Unsupported { capability: "platform info" })
    }
}

/// The readout in words, for the log.
pub open spec fn info_line(i: PlatformInfo) -> Seq<char> {
    "platform info: screen "@ + dec_int(i.screen.0 as int) + "x"@ + dec_int(i.screen.1 as int)
        + ", cursor "@ + dec_int(i.cursor.0 as int) + ","@ + dec_int(i.cursor.1 as int)
}

impl PlatformInfo {
    /// The readout in words, for the log.
    pub fn line(&self) -> (s: String)
        ensures
            s@ == info_line(*self),
    {
        let mut s = String::from_str("platform info: screen ");
        crate::number::push_int(&mut s, self.screen.0 as i64);
        s.append("x");
        crate::number::push_int(&mut s, self.screen.1 as i64);
        s.append(", cursor ");
        crate::number::push_int(&mut s, self.cursor.0 as i64);
        s.append(",");
        crate::number::push_int(&mut s, self.cursor.1 as i64);
        s
    }
}

} // verus!
