use vstd::prelude::*;
use vstd::string::StringExecFns;
use crate::utils::{decimal, decimal_text};

verus! {

/// An error returned by the podman API to an incorrect request,
/// such as an endpoint requested with POST instead of GET.
#[derive(Debug, PartialEq, Eq)]
pub struct RequestError {
    pub message: String,
    pub response_code: u16,
}

impl RequestError {
    /// The error as a text for the user.
    pub open spec fn text(self) -> Seq<char> {
        "A Request to Podman returned the following error:\n["@ + decimal(
            self.response_code as nat,
        ) + "] message: "@ + self.message@
    }

    /// Writes the error as a text for the user.
    pub fn to_string(&self) -> (r: String)
        ensures
            r@ == self.text(),
    {
        let mut text = String::from_str("A Request to Podman returned the following error:\n[");
        text.append(decimal_text(self.response_code).as_str());
        text.append("] message: ");
        text.append(self.message.as_str());
        text
    }
}

} // verus!
