//! The ways an operation of the client can fail, and the text shown for each.

use vstd::prelude::*;
use vstd::string::StringExecFns;

verus! {

/// An operation on the stored credential.
#[derive(Debug, Clone, Copy, PartialEq, Eq)]
pub enum StoreOp {
    Has,
    Save,
    Get,
    Delete,
}

/// The step of a store operation that touches the settings file.
#[derive(Debug, Clone, Copy, PartialEq, Eq)]
pub enum StoreStep {
    /// Opening the settings file.
    Load,
    /// Writing the settings back to the file.
    Save,
}

/// A call on the delivery service.
#[derive(Debug, Clone, Copy, PartialEq, Eq)]
pub enum RemoteCall {
    Send,
    List,
    Get,
}

/// Why an operation failed.
#[derive(Debug, Clone, PartialEq, Eq)]
pub enum Error {
    /// The settings file could not be opened or written; `detail` is what the
    /// store said.
    StoreUnavailable { during: StoreOp, step: StoreStep, detail: String },
    /// No credential is stored.
    CredentialMissing,
    /// Something is stored under the credential's key, but it is not a text.
    CredentialCorrupt,
    /// The delivery service, or the way to it, failed; `detail` is what the
    /// client of the service said.
    RemoteFailure { call: RemoteCall, detail: String },
}

/// The severity tag in front of a store failure. Failures while deleting
/// carry the bare word, all others the bracketed one.
pub open spec fn store_tag(during: StoreOp) -> Seq<char> {
    match during {
        StoreOp::Delete => "ERROR "@,
        _ => "[ERROR] "@,
    }
}

/// What a store failure says before the store's own words.
pub open spec fn step_text(step: StoreStep) -> Seq<char> {
    match step {
        StoreStep::Load => "Failed to load store: "@,
        StoreStep::Save => "Failed to save store: "@,
    }
}

/// What a remote failure says before the service's own words.
pub open spec fn call_text(call: RemoteCall) -> Seq<char> {
    match call {
        RemoteCall::Send => "[ERROR] Failed to send email: "@,
        RemoteCall::List => "[ERROR] Failed to fetch sent emails: "@,
        RemoteCall::Get => "[ERROR] Failed to fetch email: "@,
    }
}

impl Error {
    /// The text shown for this failure.
    pub open spec fn text(self) -> Seq<char> {
        match self {
            Error::StoreUnavailable { during, step, detail } => store_tag(during) + step_text(step)
                + detail@,
            Error::CredentialMissing => "[ERROR] API key not configured"@,
            Error::CredentialCorrupt => "[ERROR] API key is not a string"@,
            Error::RemoteFailure { call, detail } => call_text(call) + detail@,
        }
    }

    /// Renders the failure as the text that is shown to the user.
    pub fn message(&self) -> (text: String)
        ensures
            text@ == self.text(),
    {
        match self {
            Error::StoreUnavailable { during, step, detail } => {
                let mut text = match during {
                    StoreOp::Delete => String::from_str("ERROR "),
                    _ => String::from_str("[ERROR] "),
                };
                match step {
                    StoreStep::Load => text.append("Failed to load store: "),
                    StoreStep::Save => text.append("Failed to save store: "),
                }
                text.append(detail.as_str());
                text
            },
            Error::CredentialMissing => String::from_str("[ERROR] API key not configured"),
            Error::CredentialCorrupt => String::from_str("[ERROR] API key is not a string"),
            Error::RemoteFailure { call, detail } => {
                let mut text = match call {
                    RemoteCall::Send => String::from_str("[ERROR] Failed to send email: "),
                    RemoteCall::List => String::from_str("[ERROR] Failed to fetch sent emails: "),
                    RemoteCall::Get => String::from_str("[ERROR] Failed to fetch email: "),
                };
                text.append(detail.as_str());
                text
            },
        }
    }
}

} // verus!
