use resend_desk::email::send_email;
use resend_desk::error::{Error, RemoteCall};

#[test]
fn accepted_email_returns_the_acknowledgment() {
    assert_eq!(
        send_email(Ok(String::from("49a3999c-0ce1-4ea6-ab68-afcd6dc2e794"))),
        Ok(String::from("49a3999c-0ce1-4ea6-ab68-afcd6dc2e794"))
    );
}

#[test]
fn failed_send_is_a_remote_failure() {
    let result = send_email(Err(String::from("validation_error: missing `to`")));
    assert_eq!(
        result,
        Err(Error::RemoteFailure {
            call: RemoteCall::Send,
            detail: String::from("validation_error: missing `to`"),
        })
    );
    assert_eq!(
        result.unwrap_err().message(),
        "[ERROR] Failed to send email: validation_error: missing `to`"
    );
}
