//! The delivery of a passcode over WhatsApp: what to send to the
//! messaging provider, and what its answer means.

use vstd::prelude::*;
use crate::text::join;

verus! {

/// The number that the messages are sent from.
pub const FROM_NUMBER: &'static str = "whatsapp:+14155238886";

/// A message to hand to the provider.
pub struct WhatsappMessage {
    /// The address of the provider's message endpoint for the account.
    pub url: String,
    /// The recipient.
    pub to: String,
    /// The sender.
    pub from: String,
    /// The text.
    pub body: String,
}

/// A message as a value.
pub struct WhatsappMessageView {
    pub url: Seq<char>,
    pub to: Seq<char>,
    pub from: Seq<char>,
    pub body: Seq<char>,
}

impl View for WhatsappMessage {
    type V = WhatsappMessageView;

    open spec fn view(&self) -> WhatsappMessageView {
        WhatsappMessageView { url: self.url@, to: self.to@, from: self.from@, body: self.body@ }
    }
}

/// The message that carries `otp_code` to `to_number` on behalf of the
/// provider account `account_sid`.
pub open spec fn otp_message(
    account_sid: Seq<char>,
    to_number: Seq<char>,
    otp_code: Seq<char>,
) -> WhatsappMessageView {
    WhatsappMessageView {
        url: "https://api.twilio.com/2010-04-01/Accounts/"@ + account_sid + "/Messages.json"@,
        to: "whatsapp:"@ + to_number,
        from: FROM_NUMBER@,
        body: "Seu código de verificação e-Signature é: "@ + otp_code,
    }
}

/// Makes the message that carries a passcode to a WhatsApp number.
pub fn send_otp_via_whatsapp(account_sid: &str, to_number: &str, otp_code: &str) -> (message:
    WhatsappMessage)
    ensures
        message@ == otp_message(account_sid@, to_number@, otp_code@),
{
    let mut url = join("https://api.twilio.com/2010-04-01/Accounts/", account_sid);
    url.append("/Messages.json");
    WhatsappMessage {
        url,
        to: join("whatsapp:", to_number),
        from: FROM_NUMBER.to_owned(),
        body: join("Seu código de verificação e-Signature é: ", otp_code),
    }
}

/// What the provider's answer means for the delivery: an answer with an
/// error status fails it, with the provider's text in the message.
pub fn delivery_outcome(success: bool, error_text: &str) -> (outcome: Result<(), String>)
    ensures
        match outcome {
            Ok(()) => success,
            Err(message) => !success && message@ == "Falha no envio: "@ + error_text@,
        },
{
    if success {
        Ok(())
    } else {
        Err(join("Falha no envio: ", error_text))
    }
}

} // verus!
