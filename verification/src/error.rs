//! The failures this layer reports, and the reading of a native status code.

use vstd::prelude::*;
use crate::helpers::{adopt, ComWrapper, RefCounts};

verus! {

/// A native status code reports success exactly when it is not negative.
pub open spec fn status_succeeded(hr: i32) -> bool {
    hr >= 0
}

/// Whether a native status code reports success.
pub fn succeeded(hr: i32) -> (ok: bool)
    ensures
        ok == status_succeeded(hr),
{
    hr >= 0
}

/// A failure of the companion surface subsystem, with the status code it
/// reported.
#[derive(Copy, Clone, Debug, PartialEq, Eq, Hash, Structural)]
pub struct DxgiError(pub i32);

/// A failure reported by a native call, tagged with the subsystem it came
/// from.
#[derive(Copy, Clone, Debug, PartialEq, Eq, Structural)]
pub enum Error {
    /// The companion surface subsystem failed.
    Dxgi(DxgiError),
    /// The device layer failed with this status code.
    D3D11(i32),
}

impl Error {
    /// Wraps `ptr` where the status reports success, and reports the status
    /// as a device-layer failure where it does not. A failed call leaves the
    /// address unwrapped and the account untouched.
    pub fn wrap_if<O: ComWrapper>(hr: i32, ptr: usize, counts: &mut RefCounts) -> (r: Result<
        O,
        Error,
    >)
        requires
            status_succeeded(hr) ==> ptr != 0,
        ensures
            match r {
                Ok(wrapper) => status_succeeded(hr) && wrapper.raw() == ptr
                    && final(counts)@ == old(counts)@.insert(ptr),
                Err(e) => !status_succeeded(hr) && e == Error::D3D11(hr)
                    && final(counts)@ == old(counts)@,
            },
    {
        if succeeded(hr) {
            Ok(adopt(ptr, counts))
        } else {
            Err(Error::D3D11(hr))
        }
    }

    /// The status code that the failure carries.
    pub open spec fn status(self) -> i32 {
        match self {
            Error::Dxgi(DxgiError(hr)) => hr,
            Error::D3D11(hr) => hr,
        }
    }

    /// The status code that the failure carries.
    pub fn code(&self) -> (hr: i32)
        ensures
            hr == self.status(),
    {
        match self {
            Error::Dxgi(e) => e.0,
            Error::D3D11(hr) => *hr,
        }
    }

    /// The name of the subsystem that failed.
    pub open spec fn tag(self) -> Seq<char> {
        match self {
            Error::Dxgi(_) => "Dxgi"@,
            Error::D3D11(_) => "D3D11"@,
        }
    }

    /// The rendering of a failure whose status code reads `meaning`: the
    /// subsystem's tag, then the meaning in round brackets.
    pub open spec fn rendering(self, meaning: Seq<char>) -> Seq<char> {
        self.tag() + "("@ + meaning + ")"@
    }

    /// Renders the failure for a reader. `meaning` is the text of the status
    /// code, which the host system supplies. The rendering is a function of
    /// the failure and that text alone.
    pub fn render(&self, meaning: &str) -> (text: String)
        ensures
            text@ == self.rendering(meaning@),
    {
        let mut text = match self {
            Error::Dxgi(_) => String::from_str("Dxgi"),
            Error::D3D11(_) => String::from_str("D3D11"),
        };
        text.append("(");
        text.append(meaning);
        text.append(")");
        text
    }
}

impl From<i32> for Error {
    fn from(hr: i32) -> (e: Error) {
        Error::D3D11(hr)
    }
}

impl vstd::std_specs::convert::FromSpecImpl<i32> for Error {
    open spec fn obeys_from_spec() -> bool {
        true
    }

    open spec fn from_spec(hr: i32) -> Error {
        Error::D3D11(hr)
    }
}

impl From<DxgiError> for Error {
    fn from(err: DxgiError) -> (e: Error) {
        Error::Dxgi(err)
    }
}

impl vstd::std_specs::convert::FromSpecImpl<DxgiError> for Error {
    open spec fn obeys_from_spec() -> bool {
        true
    }

    open spec fn from_spec(err: DxgiError) -> Error {
        Error::Dxgi(err)
    }
}

} // verus!
