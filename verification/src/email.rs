//! Sending an email through the delivery service.

use vstd::prelude::*;
use crate::error::{Error, RemoteCall};

verus! {

/// The answer to a send command, from what the service gave for the one
/// send call: the identifier under which it accepted the email, or the
/// client's words on why the call failed. Nothing is tried again.
pub fn send_email(sent: Result<String, String>) -> (result: Result<String, Error>)
    ensures
        match sent {
            Ok(accepted) => result == Ok::<String, Error>(accepted),
            Err(detail) => result == Err::<String, Error>(
                (Error::RemoteFailure { call: RemoteCall::Send, detail }),
            ),
        },
{
    match sent {
        Ok(accepted) => Ok(accepted),
        Err(detail) => Err(Error::RemoteFailure { call: RemoteCall::Send, detail }),
    }
}

} // verus!
