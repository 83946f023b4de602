//! The messages that the service asks to have delivered.

use vstd::prelude::*;

verus! {

/// One message: where it goes and what it says. Delivering it is the
/// caller's work; whether that worked is handed back to the flow.
#[derive(Debug, Clone, PartialEq, Eq)]
pub struct Mail {
    pub to: String,
    pub subject: String,
    pub body: String,
}

/// A `Mail` over sequences of characters.
pub struct MailView {
    pub to: Seq<char>,
    pub subject: Seq<char>,
    pub body: Seq<char>,
}

impl View for Mail {
    type V = MailView;

    open spec fn view(&self) -> MailView {
        MailView { to: self.to@, subject: self.subject@, body: self.body@ }
    }
}

/// The view of a message that may be absent.
pub open spec fn mail_view(o: Option<Mail>) -> Option<MailView> {
    match o {
        Some(m) => Some(m@),
        None => None,
    }
}

/// The link that proves an address: the base, then `/verify?token=` and
/// the token.
pub open spec fn verification_link(base_url: Seq<char>, token: Seq<char>) -> Seq<char> {
    base_url + "/verify?token="@ + token
}

/// The link that opens a password reset: the base, then
/// `/reset_password?token=` and the token.
pub open spec fn reset_link(base_url: Seq<char>, token: Seq<char>) -> Seq<char> {
    base_url + "/reset_password?token="@ + token
}

/// The message that asks a new account to prove its address.
pub open spec fn verification_mail(
    base_url: Seq<char>,
    to: Seq<char>,
    token: Seq<char>,
) -> MailView {
    MailView {
        to,
        subject: "Please verify your email"@,
        body: "Click on the link to verify your email: "@ + verification_link(base_url, token),
    }
}

/// The message that carries a reset link.
pub open spec fn reset_mail(base_url: Seq<char>, to: Seq<char>, token: Seq<char>) -> MailView {
    MailView {
        to,
        subject: "Reset Your Password"@,
        body: "Click on the link to reset your password: "@ + reset_link(base_url, token),
    }
}

/// What a code is sent for.
#[derive(Debug, Clone, Copy)]
pub enum CodePurpose {
    /// The second step of a login.
    Login,
    /// Switching the second factor on.
    Activation,
    /// Switching the second factor off.
    Deactivation,
}

/// The subject of the message that carries a code.
pub open spec fn code_subject(purpose: CodePurpose) -> Seq<char> {
    match purpose {
        CodePurpose::Login => "Your 2FA code"@,
        CodePurpose::Activation => "Your 2FA activation code"@,
        CodePurpose::Deactivation => "Your 2FA deactivation code"@,
    }
}

/// What stands before the code in the message that carries it.
pub open spec fn code_lead(purpose: CodePurpose) -> Seq<char> {
    match purpose {
        CodePurpose::Login => "Here is your 2FA code: "@,
        CodePurpose::Activation => "Here is your 2FA activation code: "@,
        CodePurpose::Deactivation => "Here is your 2FA deactivation code: "@,
    }
}

/// The message that carries a code of the second factor.
pub open spec fn code_mail(purpose: CodePurpose, to: Seq<char>, code: Seq<char>) -> MailView {
    MailView { to, subject: code_subject(purpose), body: code_lead(purpose) + code }
}

/// `first`, `second` and `third`, one after the other.
fn join3(first: &str, second: &str, third: &str) -> (text: String)
    ensures
        text@ == first@ + second@ + third@,
{
    let mut text = first.to_owned();
    text.append(second);
    text.append(third);
    text
}

impl Mail {
    /// Writes the message that asks `to` to prove the address.
    pub fn verification(base_url: &str, to: &str, token: &str) -> (mail: Mail)
        ensures
            mail@ == verification_mail(base_url@, to@, token@),
    {
        let link = join3(base_url, "/verify?token=", token);
        let mut body = "Click on the link to verify your email: ".to_owned();
        body.append(link.as_str());
        Mail { to: to.to_owned(), subject: "Please verify your email".to_owned(), body }
    }

    /// Writes the message that carries the reset link to `to`.
    pub fn reset(base_url: &str, to: &str, token: &str) -> (mail: Mail)
        ensures
            mail@ == reset_mail(base_url@, to@, token@),
    {
        let link = join3(base_url, "/reset_password?token=", token);
        let mut body = "Click on the link to reset your password: ".to_owned();
        body.append(link.as_str());
        Mail { to: to.to_owned(), subject: "Reset Your Password".to_owned(), body }
    }

    /// Writes the message that carries a code to `to`.
    pub fn code(purpose: CodePurpose, to: &str, code: &str) -> (mail: Mail)
        ensures
            mail@ == code_mail(purpose, to@, code@),
    {
        let (subject, lead): (&str, &str) = match purpose {
            CodePurpose::Login => ("Your 2FA code", "Here is your 2FA code: "),
            CodePurpose::Activation => (
                "Your 2FA activation code",
                "Here is your 2FA activation code: ",
            ),
            CodePurpose::Deactivation => (
                "Your 2FA deactivation code",
                "Here is your 2FA deactivation code: ",
            ),
        };
        let mut body = lead.to_owned();
        body.append(code);
        Mail { to: to.to_owned(), subject: subject.to_owned(), body }
    }
}

} // verus!
