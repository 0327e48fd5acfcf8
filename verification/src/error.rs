use vstd::prelude::*;

verus! {

/// Failures of feed acquisition, as the command layer reports them.
#[derive(Debug, Clone, PartialEq, Eq)]
pub enum Error {
    Custom(String),
    ReqwestBadUrl(String),
    ReqwestBadResponse(String),
    XmlBadFormat,
    XmlDeserialize(String),
}

impl From<String> for Error {
    fn from(val: String) -> (made: Self) {
        Self::Custom(val)
    }
}

impl vstd::std_specs::convert::FromSpecImpl<String> for Error {
    open spec fn obeys_from_spec() -> bool {
        true
    }

    open spec fn from_spec(val: String) -> Self {
        Self::Custom(val)
    }
}

} // verus!
