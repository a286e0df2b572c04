//! Settings of the SMTP service that sends emails.

use vstd::prelude::*;
use crate::text::{lowercase, parse_u16, parse_u16_spec, to_lowercase};
use crate::mail::{envelope, envelope_for, mailbox_accepts};
use lettre::address::AddressError;
use lettre::message::Mailbox;

verus! {

/// Why email settings were refused.
#[derive(Debug, PartialEq, Eq, Structural)]
pub enum EmailSettingsError {
    /// The port is not a number from 0 to 65535.
    InvalidPort,
}

/// How the connection to the SMTP server is secured.
#[derive(Debug, PartialEq, Eq, Structural)]
pub enum TransportSecurity {
    /// TLS from the start of the connection.
    Tls,
    /// A plain connection upgraded with STARTTLS.
    StartTls,
}

/// Whether a `SMTP_USE_TLS` setting asks for TLS: its lower-case form is `true`;
/// an absent setting counts as empty.
pub open spec fn tls_requested(setting: Option<Seq<char>>) -> bool {
    match setting {
        Some(s) => lowercase(s) == "true"@,
        None => lowercase(Seq::empty()) == "true"@,
    }
}

/// TLS is asked for by exactly the settings whose lowercase form is `true`:
/// any other setting, such as `false`, and an absent one, mean STARTTLS.
pub proof fn law_tls_only_for_true(setting: Seq<char>)
    ensures
        tls_requested(Some(setting)) <==> lowercase(setting) == "true"@,
        lowercase(setting) == "false"@ ==> !tls_requested(Some(setting)),
{
    reveal_strlit("true");
    reveal_strlit("false");
    if lowercase(setting) == "false"@ {
        assert("false"@[0] != "true"@[0]);
    }
}

/// SMTP settings of the email service.
#[derive(Clone)]
pub struct EmailService {
    smtp_server: String,
    smtp_port: u16,
    smtp_username: String,
    smtp_password: String,
    from: String,
    use_tls: bool,
}

impl EmailService {
    pub closed spec fn spec_smtp_server(&self) -> Seq<char> {
        self.smtp_server@
    }

    pub closed spec fn spec_smtp_port(&self) -> u16 {
        self.smtp_port
    }

    pub closed spec fn spec_smtp_username(&self) -> Seq<char> {
        self.smtp_username@
    }

    pub closed spec fn spec_smtp_password(&self) -> Seq<char> {
        self.smtp_password@
    }

    pub closed spec fn spec_from(&self) -> Seq<char> {
        self.from@
    }

    pub closed spec fn spec_use_tls(&self) -> bool {
        self.use_tls
    }

    /// The service for the settings read from `SMTP_SERVER`, `SMTP_PORT`,
    /// `SMTP_USERNAME`, `SMTP_PASSWORD`, `EMAIL_FROM` and `SMTP_USE_TLS` (absent: `None`).
    /// The port must parse as a 16-bit number; TLS is used when the last
    /// setting reads `true` in any case, so an absent setting means STARTTLS.
    pub fn new(
        smtp_server: String,
        smtp_port: &str,
        smtp_username: String,
        smtp_password: String,
        from: String,
        use_tls: Option<String>,
    ) -> (service: Result<Self, EmailSettingsError>)
        ensures
            service is Err <==> parse_u16_spec(smtp_port@) is None,
            service matches Err(e) ==> e == EmailSettingsError::InvalidPort,
            service matches Ok(s) ==> {
                &&& s.spec_smtp_server() == smtp_server@
                &&& Some(s.spec_smtp_port()) == parse_u16_spec(smtp_port@)
                &&& s.spec_smtp_username() == smtp_username@
                &&& s.spec_smtp_password() == smtp_password@
                &&& s.spec_from() == from@
                &&& s.spec_use_tls() == tls_requested(
                    match use_tls {
                        Some(t) => Some(t@),
                        None => None,
                    },
                )
            },
            service matches Ok(s) ==> (use_tls is None ==> !s.spec_use_tls()),
            service matches Ok(s) ==> (s.spec_use_tls() <==> (use_tls matches Some(t) && lowercase(t@) == "true"@)),
    {
        let port = match parse_u16(smtp_port) {
            Some(p) => p,
            None => {
                return Err(EmailSettingsError::InvalidPort);
            },
        };
        let setting = match use_tls {
            Some(t) => t,
            None => String::new(),
        };
        let lowered = to_lowercase(setting.as_str());
        let expected = String::from_str("true");
        let tls = lowered == expected;
        proof {
            reveal_strlit("true");
        }
        Ok(EmailService { smtp_server, smtp_port: port, smtp_username, smtp_password, from, use_tls: tls })
    }

    /// How the connection to the server is secured.
    pub fn transport_security(&self) -> (security: TransportSecurity)
        ensures
            security == if self.spec_use_tls() {
                TransportSecurity::Tls
            } else {
                TransportSecurity::StartTls
            },
    {
        if self.use_tls {
            TransportSecurity::Tls
        } else {
            TransportSecurity::StartTls
        }
    }

    pub fn smtp_server(&self) -> (s: &str)
        ensures
            s@ == self.spec_smtp_server(),
    {
        self.smtp_server.as_str()
    }

    pub fn smtp_port(&self) -> (p: u16)
        ensures
            p == self.spec_smtp_port(),
    {
        self.smtp_port
    }

    pub fn smtp_username(&self) -> (s: &str)
        ensures
            s@ == self.spec_smtp_username(),
    {
        self.smtp_username.as_str()
    }

    pub fn smtp_password(&self) -> (s: &str)
        ensures
            s@ == self.spec_smtp_password(),
    {
        self.smtp_password.as_str()
    }

    pub fn from(&self) -> (s: &str)
        ensures
            s@ == self.spec_from(),
    {
        self.from.as_str()
    }
}

/// The sender and recipient mailboxes of an email from `service` to `to`: the
/// service's sender address is read first.
pub fn email_envelope(service: &EmailService, to: &str) -> (r: Result<(Mailbox, Mailbox), AddressError>)
    ensures
        r == envelope_for(service.spec_from(), to@),
        r is Ok == (mailbox_accepts(service.spec_from()) && mailbox_accepts(to@)),
{
    envelope(service.from(), to)
}

} // verus!
