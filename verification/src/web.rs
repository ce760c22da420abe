use vstd::prelude::*;
use crate::text::join2;

verus! {

/// A refusal of the web demo: an HTTP status and the `error` text of the
/// JSON body.
pub struct HttpFailure {
    pub status: u16,
    pub message: String,
}

/// The public web demo has no authentication, so it starts only in demo
/// mode, where no tool can reach a real account.
pub fn web_may_start(demo: bool) -> (r: bool)
    ensures
        r == demo,
{
    demo
}

/// The socket address the web demo binds: every interface, on the port of
/// the `PORT` variable, or 8080 where it is unset.
pub fn listen_address(port: Option<&str>) -> (r: String)
    ensures
        r@ == "0.0.0.0:"@ + match port {
            Some(p) => p@,
            None => "8080"@,
        },
{
    match port {
        Some(p) => join2("0.0.0.0:", p),
        None => join2("0.0.0.0:", "8080"),
    }
}

/// A `send_gmail` request without a recipient is refused with status 400
/// before any send; any other request goes on.
pub fn web_send_gmail_check(to: &str) -> (r: Option<HttpFailure>)
    ensures
        to@.len() == 0 ==> (r matches Some(f) && f.status == 400 && f.message@
            == "Missing required field: to"@),
        to@.len() > 0 ==> r is None,
{
    if to.is_empty() {
        Some(HttpFailure { status: 400, message: "Missing required field: to".to_owned() })
    } else {
        None
    }
}

/// A tool failure is answered with status 500 and the failure's text.
pub fn web_tool_failure(message: &str) -> (r: HttpFailure)
    ensures
        r.status == 500,
        r.message@ == message@,
{
    HttpFailure { status: 500, message: message.to_owned() }
}

} // verus!
