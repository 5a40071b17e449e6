//! The change notification: its text, and the mail message built from it
//! with lettre. Delivery over the relay is left to the caller.

use vstd::prelude::*;
use vstd::string::*;
use lettre::message::Mailbox;
use lettre::address::AddressError;
use lettre::Message;
use lettre::message::header::ContentType;
use crate::config::{SmtpConfig, opt_view};
use crate::detector::RunError;

verus! {

#[verifier::external_type_specification]
#[verifier::external_body]
pub struct ExMailbox(Mailbox);

#[verifier::external_type_specification]
#[verifier::external_body]
pub struct ExAddressError(AddressError);

#[verifier::external_type_specification]
#[verifier::external_body]
pub struct ExMessage(Message);

#[verifier::external_type_specification]
#[verifier::external_body]
pub struct ExEmailError(lettre::error::Error);

/// A change notification, built only when the address differs from the last one.
pub struct NotificationEvent {
    pub previous: Option<String>,
    pub current: String,
    pub subject: String,
    pub body: String,
}

pub open spec fn subject_text() -> Seq<char> {
    "IPv6地址更新通知"@
}

/// The body: a headline, then the old address (or "无" when there was none)
/// and the new one, each on its own line.
pub open spec fn body_text(previous: Option<Seq<char>>, current: Seq<char>) -> Seq<char> {
    "IPv6地址已更新\n旧地址: "@ + match previous {
        Some(p) => p,
        None => "无"@,
    } + "\n新地址: "@ + current
}

/// The display form of the sender: a fixed name with the address in angle brackets.
pub open spec fn sender_text(from_addr: Seq<char>) -> Seq<char> {
    "IPv6监控 <"@ + from_addr + ">"@
}

/// Whether lettre reads the text as a mailbox (`Name <user@domain>` or a bare address).
pub uninterp spec fn mailbox_parses(s: Seq<char>) -> bool;

/// Relies on lettre's `FromStr` for `Mailbox`: the text alone decides whether
/// it is accepted.
#[verifier::external_body]
fn parse_mailbox(s: &str) -> (r: Result<Mailbox, AddressError>)
    ensures
        r is Ok <==> mailbox_parses(s@),
{
    s.parse::<Mailbox>()
}

/// Relies on lettre's `MessageBuilder`: a plain-text message from `from` to
/// `to` with the given subject and body, dated when it is built. With exactly
/// one sender and one recipient set, building fails on no input.
#[verifier::external_body]
fn build_message(from: Mailbox, to: Mailbox, subject: &str, body: String) -> (r: Result<
    Message,
    lettre::error::Error,
>)
    ensures
        r is Ok,
{
    Message::builder().from(from).to(to).subject(subject).header(ContentType::TEXT_PLAIN).body(body)
}

impl NotificationEvent {
    /// The notification for a change from `previous` (none on a first run) to `current`.
    pub fn new(previous: Option<String>, current: String) -> (r: NotificationEvent)
        ensures
            r.previous == previous,
            r.current == current,
            r.subject@ == subject_text(),
            r.body@ == body_text(opt_view(previous), current@),
    {
        let mut body = String::from_str("IPv6地址已更新\n旧地址: ");
        match &previous {
            Some(p) => body.append(p.as_str()),
            None => body.append("无"),
        }
        body.append("\n新地址: ");
        body.append(current.as_str());
        NotificationEvent {
            previous,
            current,
            subject: String::from_str("IPv6地址更新通知"),
            body,
        }
    }
}

/// The sender's display form for `from_addr`.
pub fn sender_display(from_addr: &String) -> (r: String)
    ensures
        r@ == sender_text(from_addr@),
{
    let mut s = String::from_str("IPv6监控 <");
    s.append(from_addr.as_str());
    s.append(">");
    s
}

/// The mail message for `notice`, addressed as `smtp` says. It is built
/// exactly when lettre accepts both the sender and the recipient as mailboxes;
/// otherwise the notification counts as not delivered.
pub fn compose(smtp: &SmtpConfig, notice: &NotificationEvent) -> (r: Result<Message, RunError>)
    ensures
        !mailbox_parses(sender_text(smtp.from_addr@)) ==> r == Err::<Message, RunError>(
            RunError::DeliveryFailed,
        ),
        !mailbox_parses(smtp.to_addr@) ==> r == Err::<Message, RunError>(RunError::DeliveryFailed),
        mailbox_parses(sender_text(smtp.from_addr@)) && mailbox_parses(smtp.to_addr@) ==> r is Ok,
        r is Err ==> r == Err::<Message, RunError>(RunError::DeliveryFailed),
{
    let sender = sender_display(&smtp.from_addr);
    let from = match parse_mailbox(sender.as_str()) {
        Ok(m) => m,
        Err(_) => return Err(RunError::DeliveryFailed),
    };
    let to = match parse_mailbox(smtp.to_addr.as_str()) {
        Ok(m) => m,
        Err(_) => return Err(RunError::DeliveryFailed),
    };
    match build_message(from, to, notice.subject.as_str(), notice.body.clone()) {
        Ok(m) => Ok(m),
        Err(_) => Err(RunError::DeliveryFailed),
    }
}

} // verus!
