use vstd::prelude::*;
use crate::mailbox::{
    compose_message, is_address_error_message, is_plain_address, mailbox_rejection,
    parse_content_type, parse_mailbox, plain_text_utf8, ComposedMessage,
};
use crate::model::GmailSendResult;
use crate::text::{spec_strip_spaces, strip_spaces};

verus! {

/// Why an e-mail cannot be prepared; each carries the message that the
/// send reports.
pub enum MailError {
    /// A credential variable could not be read from the environment.
    Environment(String),
    /// The sender address (the Gmail user) is not a valid mailbox.
    InvalidSender(String),
    /// The recipient address is not a valid mailbox.
    InvalidRecipient(String),
}

impl MailError {
    pub fn message(&self) -> (r: String)
        ensures
            r@ == match self {
                MailError::Environment(m) => m@,
                MailError::InvalidSender(m) => m@,
                MailError::InvalidRecipient(m) => m@,
            },
    {
        match self {
            MailError::Environment(m) => m.clone(),
            MailError::InvalidSender(m) => m.clone(),
            MailError::InvalidRecipient(m) => m.clone(),
        }
    }
}

/// Everything the SMTP send needs: the message, the login and the relay.
pub struct SmtpPlan {
    pub message: ComposedMessage,
    pub user: String,
    pub password: String,
    pub relay: String,
}

/// Prepares a Gmail SMTP send from the `GMAIL_USER` and
/// `GMAIL_APP_PASSWORD` variables as read (or the error of reading them),
/// the recipient, the subject and the body: checks, in this order, the user
/// variable, the password variable, the sender address and the recipient
/// address. The message goes from the Gmail user to the recipient as UTF-8
/// plain text; the login is the Gmail user with the app password without its
/// spaces, through `smtp.gmail.com`.
pub fn plan_email(
    user: Result<String, String>,
    password: Result<String, String>,
    to: &str,
    subject: &str,
    body: &str,
) -> (r: Result<SmtpPlan, MailError>)
    ensures
        match (user, password) {
            (Err(m), _) => r == Err::<SmtpPlan, MailError>(MailError::Environment(m)),
            (Ok(_), Err(m)) => r == Err::<SmtpPlan, MailError>(MailError::Environment(m)),
            (Ok(u), Ok(p)) => match (mailbox_rejection(u@), mailbox_rejection(to@)) {
                (Some(e), _) => r matches Err(MailError::InvalidSender(m)) && m@ == e
                    && is_address_error_message(m@),
                (None, Some(e)) => r matches Err(MailError::InvalidRecipient(m)) && m@ == e
                    && is_address_error_message(m@),
                (None, None) => r matches Ok(plan) && plan.message@ == (
                    u@,
                    to@,
                    subject@,
                    plain_text_utf8(),
                    body@,
                ) && plan.user@ == u@ && plan.password@ == spec_strip_spaces(p@) && plan.relay@
                    == "smtp.gmail.com"@,
            },
        },
        match (user, password) {
            (Ok(u), Ok(_)) => is_plain_address(u@) && is_plain_address(to@) ==> r is Ok,
            _ => true,
        },
{
    let user = match user {
        Ok(u) => u,
        Err(m) => {
            return Err(MailError::Environment(m));
        },
    };
    let password = match password {
        Ok(p) => strip_spaces(p.as_str()),
        Err(m) => {
            return Err(MailError::Environment(m));
        },
    };
    let sender = match parse_mailbox(user.as_str()) {
        Ok(mailbox) => mailbox,
        Err(m) => {
            return Err(MailError::InvalidSender(m));
        },
    };
    let recipient = match parse_mailbox(to) {
        Ok(mailbox) => mailbox,
        Err(m) => {
            return Err(MailError::InvalidRecipient(m));
        },
    };
    let content_type = parse_content_type("text/plain; charset=utf-8").unwrap();
    let message = compose_message(sender, recipient, subject, content_type, body).unwrap();
    Ok(SmtpPlan { message, user, password, relay: "smtp.gmail.com".to_owned() })
}

/// How `send_gmail` carries out a send.
pub enum MailAction {
    /// Demo mode: pause briefly and report success; no mail leaves.
    Simulate,
    /// Send through Gmail SMTP.
    Deliver,
}

/// Demo mode never sends real mail.
pub fn mail_action(demo: bool) -> (r: MailAction)
    ensures
        demo <==> r is Simulate,
{
    if demo {
        MailAction::Simulate
    } else {
        MailAction::Deliver
    }
}

/// The report of a completed (or, in demo mode, simulated) send.
pub fn gmail_send_result(to: &str, subject: &str, demo: bool) -> (r: GmailSendResult)
    ensures
        r.success,
        r.to@ == to@,
        r.subject@ == subject@,
        r.demo_mode == demo,
{
    GmailSendResult { success: true, to: to.to_owned(), subject: subject.to_owned(), demo_mode: demo }
}

/// The answer of `send_gmail` once the send (or, in demo mode, the
/// simulated send) is over: the report on success, the send's failure
/// passed on unchanged otherwise.
pub fn finish_send_gmail(to: &str, subject: &str, demo: bool, sent: Result<(), String>) -> (r:
    Result<GmailSendResult, String>)
    ensures
        match sent {
            Ok(_) => r matches Ok(g) && g.success && g.to@ == to@ && g.subject@ == subject@
                && g.demo_mode == demo,
            Err(e) => r == Err::<GmailSendResult, String>(e),
        },
{
    match sent {
        Ok(_) => Ok(gmail_send_result(to, subject, demo)),
        Err(e) => Err(e),
    }
}

} // verus!
