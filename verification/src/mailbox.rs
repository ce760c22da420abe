use vstd::prelude::*;
use lettre::message::header::ContentType;
use lettre::message::Mailbox;
use lettre::Message;

verus! {

#[verifier::external_type_specification]
#[verifier::external_body]
pub struct ExMailbox(lettre::message::Mailbox);

#[verifier::external_type_specification]
#[verifier::external_body]
pub struct ExContentType(lettre::message::header::ContentType);

#[verifier::external_type_specification]
#[verifier::external_body]
pub struct ExMessage(lettre::Message);

/// lettre's verdict on `text` as a mailbox (`Name <user@domain>` or a bare
/// address): none where it accepts it, else the display text of its
/// `AddressError`. lettre's parser decides this from the text alone.
pub uninterp spec fn mailbox_rejection(text: Seq<char>) -> Option<Seq<char>>;

/// The messages that lettre's `AddressError` displays.
pub open spec fn is_address_error_message(m: Seq<char>) -> bool {
    ||| m == "Missing domain or user"@
    ||| m == "Unbalanced angle bracket"@
    ||| m == "Invalid email user"@
    ||| m == "Invalid email domain"@
    ||| m == "Invalid input"@
}

/// An ASCII letter or digit.
pub open spec fn is_ascii_alnum(c: char) -> bool {
    ||| ('a' <= c && c <= 'z')
    ||| ('A' <= c && c <= 'Z')
    ||| ('0' <= c && c <= '9')
}

/// An ASCII `atext` character of RFC 5322: a letter, a digit or one of
/// ``!#$%&'*+-/=?^_`{|}~``.
pub open spec fn is_atext(c: char) -> bool {
    ||| is_ascii_alnum(c)
    ||| c == '!' || c == '#' || c == '$' || c == '%' || c == '&' || c == '\'' || c == '*'
    ||| c == '+' || c == '-' || c == '/' || c == '=' || c == '?' || c == '^' || c == '_'
    ||| c == '`' || c == '{' || c == '|' || c == '}' || c == '~'
}

/// The parts joined with dots between them.
pub open spec fn join_with_dots(parts: Seq<Seq<char>>) -> Seq<char>
    decreases parts.len(),
{
    if parts.len() == 0 {
        Seq::empty()
    } else if parts.len() == 1 {
        parts[0]
    } else {
        join_with_dots(parts.drop_last()) + seq!['.'] + parts.last()
    }
}

/// A non-empty run of ASCII `atext`.
pub open spec fn is_atom(s: Seq<char>) -> bool {
    s.len() > 0 && forall|i: int| 0 <= i < s.len() ==> is_atext(#[trigger] s[i])
}

/// An RFC 5322 dot-atom local part of at most 64 characters: atoms
/// joined by single dots.
pub open spec fn is_dot_atom_local_part(s: Seq<char>) -> bool {
    &&& s.len() <= 64
    &&& exists|atoms: Seq<Seq<char>>|
        #![trigger join_with_dots(atoms)]
        atoms.len() > 0 && (forall|i: int| 0 <= i < atoms.len() ==> is_atom(#[trigger] atoms[i]))
            && join_with_dots(atoms) == s
}

/// A host name label: 1 to 63 ASCII letters, digits and hyphens, starting
/// and ending with a letter or digit.
pub open spec fn is_host_label(s: Seq<char>) -> bool {
    &&& 1 <= s.len() <= 63
    &&& is_ascii_alnum(s[0])
    &&& is_ascii_alnum(s.last())
    &&& forall|i: int| 0 <= i < s.len() ==> is_ascii_alnum(#[trigger] s[i]) || s[i] == '-'
}

/// A host name of at most 253 characters: labels joined by single dots.
pub open spec fn is_host_name(s: Seq<char>) -> bool {
    &&& s.len() <= 253
    &&& exists|labels: Seq<Seq<char>>|
        #![trigger join_with_dots(labels)]
        labels.len() > 0 && (forall|i: int|
            0 <= i < labels.len() ==> is_host_label(#[trigger] labels[i])) && join_with_dots(labels)
            == s
}

/// A bare address `local@domain` with a dot-atom local part over ASCII
/// `atext` (so `+` is allowed) and a host name as domain, such as
/// `jo+news@example.com`.
pub open spec fn is_plain_address(text: Seq<char>) -> bool {
    exists|local: Seq<char>, domain: Seq<char>|
        #![trigger is_dot_atom_local_part(local), is_host_name(domain)]
        is_dot_atom_local_part(local) && is_host_name(domain) && text == local + seq!['@'] + domain
}

/// Atoms joined by dots form a plain address's local part, and host name
/// labels joined by dots its domain, within the length limits: so any
/// `atext` (including `+` tags) before the `@` and any host name after it
/// make a plain address.
pub proof fn plain_address_from_parts(atoms: Seq<Seq<char>>, labels: Seq<Seq<char>>)
    requires
        atoms.len() > 0,
        forall|i: int| 0 <= i < atoms.len() ==> is_atom(#[trigger] atoms[i]),
        join_with_dots(atoms).len() <= 64,
        labels.len() > 0,
        forall|i: int| 0 <= i < labels.len() ==> is_host_label(#[trigger] labels[i]),
        join_with_dots(labels).len() <= 253,
    ensures
        is_plain_address(join_with_dots(atoms) + seq!['@'] + join_with_dots(labels)),
{
    assert(is_dot_atom_local_part(join_with_dots(atoms)));
    assert(is_host_name(join_with_dots(labels)));
}

/// A mailbox together with the text it was parsed from; only
/// `parse_mailbox` makes one.
pub struct ParsedMailbox {
    text: String,
    mailbox: Mailbox,
}

impl View for ParsedMailbox {
    type V = Seq<char>;

    closed spec fn view(&self) -> Seq<char> {
        self.text@
    }
}

/// Parses `text` with `<lettre::message::Mailbox as FromStr>::from_str`
/// and keeps the text beside the mailbox. Claimed: the parse succeeds
/// exactly when `mailbox_rejection(text)` is none, and a refusal carries
/// that text, the display of lettre's `AddressError`, one of its five
/// messages. Every plain address is accepted: lettre's RFC 2822 parser
/// reads it as `addr-spec` (dot-atom `@` dot-atom), and the `email_address`
/// checks it then makes (local part of at most 64 bytes of dot-atom text;
/// domain of at most 254 bytes whose labels have at most 63 bytes of
/// `atext` and start and end alphanumeric) all pass.
#[verifier::external_body]
pub(crate) fn parse_mailbox(text: &str) -> (r: Result<ParsedMailbox, String>)
    ensures
        r is Ok <==> mailbox_rejection(text@) is None,
        is_plain_address(text@) ==> r is Ok,
        r matches Ok(p) ==> p@ == text@,
        r matches Err(m) ==> mailbox_rejection(text@) == Some(m@) && is_address_error_message(m@),
{
    match text.parse::<Mailbox>() {
        Ok(mailbox) => Ok(ParsedMailbox { text: text.to_string(), mailbox }),
        Err(e) => Err(e.to_string()),
    }
}

/// Whether lettre (through the `mime` crate) accepts `text` as a MIME type.
pub uninterp spec fn content_type_accepts(text: Seq<char>) -> bool;

/// The UTF-8 plain-text MIME type, lettre's `ContentType::TEXT_PLAIN`.
pub open spec fn plain_text_utf8() -> Seq<char> {
    "text/plain; charset=utf-8"@
}

/// A content type together with the text it was parsed from; only
/// `parse_content_type` makes one.
pub struct ParsedContentType {
    text: String,
    content_type: ContentType,
}

impl View for ParsedContentType {
    type V = Seq<char>;

    closed spec fn view(&self) -> Seq<char> {
        self.text@
    }
}

/// Parses `text` with `lettre::message::header::ContentType::parse` and
/// keeps the text beside the content type. Claimed: the parse succeeds
/// exactly when `content_type_accepts(text)`, and it succeeds on
/// `text/plain; charset=utf-8` (the text of `mime::TEXT_PLAIN_UTF_8`,
/// which `mime`'s own tests parse).
#[verifier::external_body]
pub(crate) fn parse_content_type(text: &str) -> (r: Result<ParsedContentType, String>)
    ensures
        r is Ok <==> content_type_accepts(text@),
        text@ == plain_text_utf8() ==> r is Ok,
        r matches Ok(c) ==> c@ == text@,
{
    match ContentType::parse(text) {
        Ok(content_type) => Ok(ParsedContentType { text: text.to_string(), content_type }),
        Err(e) => Err(e.to_string()),
    }
}

/// The texts of a message's From, To, Subject, Content-Type and body.
pub type MessageText = (Seq<char>, Seq<char>, Seq<char>, Seq<char>, Seq<char>);

/// A message, with the texts of its parts; only `compose_message` makes one.
pub struct ComposedMessage {
    from: String,
    to: String,
    subject: String,
    content_type: String,
    body: String,
    message: Message,
}

impl View for ComposedMessage {
    type V = MessageText;

    closed spec fn view(&self) -> MessageText {
        (self.from@, self.to@, self.subject@, self.content_type@, self.body@)
    }
}

impl ComposedMessage {
    /// The lettre message, for the SMTP transport.
    pub fn into_message(self) -> Message {
        self.message
    }
}

/// Builds the message with lettre's `Message::builder()`: `from` the
/// sender, `to` the recipient, the subject, the `Content-Type` header and
/// the body. Claimed: the build succeeds (lettre refuses a message only
/// without a From, with several From and no Sender, or without a
/// recipient) and the message has these parts. The `Date` header lettre
/// adds from the clock is not stated.
#[verifier::external_body]
pub(crate) fn compose_message(
    sender: ParsedMailbox,
    recipient: ParsedMailbox,
    subject: &str,
    content_type: ParsedContentType,
    body: &str,
) -> (r: Result<ComposedMessage, String>)
    ensures
        r is Ok,
        r matches Ok(m) ==> m@ == (sender@, recipient@, subject@, content_type@, body@),
{
    let built = Message::builder().from(sender.mailbox).to(recipient.mailbox).subject(subject)
        .header(content_type.content_type).body(body.to_string());
    match built {
        Ok(message) => Ok(ComposedMessage {
            from: sender.text, to: recipient.text, subject: subject.to_string(),
            content_type: content_type.text, body: body.to_string(), message,
        }),
        Err(e) => Err(e.to_string()),
    }
}

} // verus!
