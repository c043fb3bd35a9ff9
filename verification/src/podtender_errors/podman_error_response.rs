use vstd::prelude::*;
use vstd::string::StringExecFns;
use crate::utils::{decimal, decimal_text};

verus! {

/// An error returned by the podman API to a correct request.
/// Wrong parameters can cause this error: deleting a container that does not exist, for one.
#[derive(Debug, PartialEq, Eq)]
pub struct PodmanErrorResponse {
    pub cause: String,
    pub message: String,
    pub response_code: u16,
}

impl PodmanErrorResponse {
    /// The error as a text for the user.
    pub open spec fn text(self) -> Seq<char> {
        "Podman returned the following error:\n["@ + decimal(self.response_code as nat)
            + "] cause: "@ + self.cause@ + ", message: "@ + self.message@
    }

    /// Writes the error as a text for the user.
    pub fn to_string(&self) -> (r: String)
        ensures
            r@ == self.text(),
    {
        let mut text = String::from_str("Podman returned the following error:\n[");
        text.append(decimal_text(self.response_code).as_str());
        text.append("] cause: ");
        text.append(self.cause.as_str());
        text.append(", message: ");
        text.append(self.message.as_str());
        text
    }
}

} // verus!
