//! Composing a message for sending.
use crate::text::chars;
use vstd::prelude::*;

verus! {

/// A message ready to be handed to a mail server: who the server is told it is from and for, and
/// its bytes.
#[derive(Debug, Clone)]
pub struct ComposedEmail {
    pub sender: Option<String>,
    pub recipients: Vec<String>,
    pub raw: Vec<u8>,
}

/// All of a composed message but the value of its `Date` header.
#[verifier::ext_equal]
pub struct EmailShape {
    pub sender: Option<Seq<char>>,
    pub recipients: Seq<Seq<char>>,
    pub before_date: Seq<u8>,
    pub after_date: Seq<u8>,
}

impl ComposedEmail {
    /// Whether the message has that shape, with whatever date.
    pub open spec fn has_shape(self, shape: EmailShape) -> bool {
        &&& chars::string_option(self.sender) == shape.sender
        &&& chars::string_list(self.recipients@) == shape.recipients
        &&& exists|date: Seq<u8>|
            self.raw@ == #[trigger] (shape.before_date + date) + shape.after_date
    }

    /// Whether the message starts with a `Message-ID` header that holds `message_id`.
    pub open spec fn is_headed_by(self, message_id: Seq<char>) -> bool {
        ascii_bytes("Message-ID: "@ + message_id + "\r\n"@).is_prefix_of(self.raw@)
    }
}

/// The bytes of an ASCII text.
pub open spec fn ascii_bytes(text: Seq<char>) -> Seq<u8> {
    text.map_values(|c: char| c as u8)
}

/// Whether a text is made of visible ASCII characters, with no space among them.
pub open spec fn is_ascii_word(text: Seq<char>) -> bool {
    forall|i: int| 0 <= i < text.len() ==> '!' <= #[trigger] text[i] && text[i] <= '~'
}

/// What `lettre` makes of a sender, a recipient, a subject, a body and an identifier: a message, or
/// the text of the error where an address is none or the message cannot be built.
pub uninterp spec fn email_shape(
    from: Seq<char>,
    to: Seq<char>,
    subject: Seq<char>,
    body: Seq<char>,
    message_id: Seq<char>,
) -> Result<EmailShape, Seq<char>>;

/// `lettre::Message::builder` with an identifier, one sender, one recipient, a subject and one
/// plain-text part, then `Message::formatted` and `Message::envelope`; the addresses go through the
/// `FromStr` of `lettre::message::Mailbox`. All but the date, which is the current one, depends on
/// the arguments alone. The headers stand in the order in which they were set, so the identifier
/// comes first; a word of visible ASCII characters is neither encoded nor folded there. Which date
/// it is, is not stated.
#[verifier::external_body]
pub(crate) fn compose_email(
    from: &str,
    to: &str,
    subject: &str,
    body: &str,
    message_id: &str,
) -> (r: Result<ComposedEmail, String>)
    ensures
        (match r {
            Ok(email) => {
                &&& email_shape(from@, to@, subject@, body@, message_id@) matches Ok(shape)
                    && email.has_shape(shape)
                &&& is_ascii_word(message_id@) ==> email.is_headed_by(message_id@)
            },
            Err(text) => email_shape(from@, to@, subject@, body@, message_id@) == Err::<
                EmailShape,
                Seq<char>,
            >(text@),
        }),
{
    let message = lettre::Message::builder()
        .message_id(Some(message_id.to_string()))
        .from(from.parse().map_err(|e: lettre::address::AddressError| e.to_string())?)
        .to(to.parse().map_err(|e: lettre::address::AddressError| e.to_string())?)
        .subject(subject)
        .singlepart(lettre::message::SinglePart::plain(body.to_string()))
        .map_err(|e| e.to_string())?;
    Ok(ComposedEmail {
        sender: message.envelope().from().map(|a| a.to_string()),
        recipients: message.envelope().to().iter().map(|a| a.to_string()).collect(),
        raw: message.formatted(),
    })
}

} // verus!
